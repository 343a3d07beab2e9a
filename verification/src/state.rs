use vstd::prelude::*;
use vstd::string::StringExecFns;
use crate::registry::Registry;
use crate::text::compose_launch_error;
use crate::text::launch_error_text;

verus! {

/// The mutable state of the launcher: which category is selected, the
/// live search text, an error message awaiting display, and the version
/// text shown in the top bar.
pub struct AppState {
    pub selected_category: usize,
    pub search_query: String,
    pub pending_error: Option<String>,
    pub version_label: String,
}

/// The version text shown when the marker file gave none.
pub open spec fn version_fallback() -> Seq<char> {
    "未知"@
}

/// The version text for the top bar: the text read from the version
/// marker when there was one, else the fallback placeholder.
pub fn resolve_version(read: Option<String>) -> (r: String)
    ensures
        match read {
            Some(s) => r == s,
            None => r@ == version_fallback(),
        },
{
    match read {
        Some(s) => s,
        None => String::from_str("未知"),
    }
}

impl AppState {
    /// The selected category index stays inside the category list.
    pub open spec fn wf(&self, category_count: nat) -> bool {
        self.selected_category < category_count
    }

    /// The startup state: first category selected, empty search, no
    /// pending error.
    pub fn new(version_label: String) -> (s: AppState)
        ensures
            s.selected_category == 0,
            s.search_query@ == Seq::<char>::empty(),
            s.pending_error is None,
            s.version_label == version_label,
    {
        AppState {
            selected_category: 0,
            search_query: String::new(),
            pending_error: None,
            version_label,
        }
    }

    /// Selects a category from the sidebar. An index within bounds is
    /// taken and keeps the state well formed; one out of bounds leaves
    /// the selection as it was, so the call never breaks the state.
    pub fn select_category(&mut self, idx: usize, category_count: usize)
        ensures
            final(self).selected_category == if idx < category_count {
                idx
            } else {
                old(self).selected_category
            },
            idx < category_count ==> final(self).wf(category_count as nat),
            final(self).search_query == old(self).search_query,
            final(self).pending_error == old(self).pending_error,
            final(self).version_label == old(self).version_label,
    {
        if idx < category_count {
            self.selected_category = idx;
        }
    }

    /// Selecting any category index within bounds leaves the state well
    /// formed, so the display filter accepts the resulting selection and
    /// yields a (possibly empty) set of valid tool indices.
    pub proof fn lemma_in_bounds_selection_is_valid(self, idx: usize, category_count: nat)
        requires
            idx < category_count,
        ensures
            (AppState { selected_category: idx, ..self }).wf(category_count),
    {
    }

    /// Replaces the live search text.
    pub fn set_search(&mut self, text: String)
        ensures
            final(self).search_query == text,
            final(self).selected_category == old(self).selected_category,
            final(self).pending_error == old(self).pending_error,
            final(self).version_label == old(self).version_label,
    {
        self.search_query = text;
    }

    /// Closes the error modal: the pending error is cleared and nothing
    /// else of the state changes.
    pub fn dismiss_error(&mut self)
        ensures
            final(self).pending_error is None,
            final(self).selected_category == old(self).selected_category,
            final(self).search_query == old(self).search_query,
            final(self).version_label == old(self).version_label,
    {
        self.pending_error = None;
    }

    /// Handles a dequeued launch request for the tool at `index`.
    ///
    /// An index out of bounds is ignored. When the tool's path was found
    /// on disk (`path_exists`), the result asks the caller to hand the
    /// path to the operating system's default-open action, and the state
    /// is untouched; no outcome of that action is observed. When the
    /// path was missing, no launch is requested and the pending error
    /// becomes exactly the message naming the tool and its path.
    pub fn request_launch(
        &mut self,
        registry: &Registry,
        index: usize,
        path_exists: bool,
    ) -> (launch: bool)
        ensures
            launch == (index < registry.tools@.len() && path_exists),
            index >= registry.tools@.len() ==> *final(self) == *old(self),
            index < registry.tools@.len() && path_exists ==> *final(self) == *old(self),
            index < registry.tools@.len() && !path_exists ==> {
                &&& final(self).pending_error is Some
                &&& final(self).pending_error->Some_0@ == launch_error_text(
                    registry.spec_tools()[index as int].name,
                    registry.spec_tools()[index as int].path,
                )
                &&& final(self).selected_category == old(self).selected_category
                &&& final(self).search_query == old(self).search_query
                &&& final(self).version_label == old(self).version_label
            },
    {
        if index >= registry.tools.len() {
            return false;
        }
        let tool = &registry.tools[index];
        if !path_exists {
            let message = compose_launch_error(tool.name.as_str(), tool.path.as_str());
            self.pending_error = Some(message);
            return false;
        }
        true
    }
}

} // verus!
