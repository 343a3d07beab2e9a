use vstd::prelude::*;
use crate::text::matches_query;
use crate::text::name_matches;

verus! {

/// One entry of the tool registry: a display name, the category it is
/// filed under, and the filesystem path that a launch opens.
pub struct Tool {
    pub name: String,
    pub category: String,
    pub path: String,
}

/// The mathematical content of a [`Tool`]: its three texts.
pub ghost struct ToolView {
    pub name: Seq<char>,
    pub category: Seq<char>,
    pub path: Seq<char>,
}

impl View for Tool {
    type V = ToolView;

    open spec fn view(&self) -> ToolView {
        ToolView { name: self.name@, category: self.category@, path: self.path@ }
    }
}

impl Tool {
    /// Builds a tool record from its three texts.
    pub fn new(name: String, category: String, path: String) -> (t: Tool)
        ensures
            t@.name == name@,
            t@.category == category@,
            t@.path == path@,
    {
        Tool { name, category, path }
    }
}

/// The immutable tool registry: the ordered category names and the tool
/// records, both fixed at startup.
pub struct Registry {
    pub categories: Vec<String>,
    pub tools: Vec<Tool>,
}

/// Whether a tool belongs to the displayed set: with a non-empty search
/// query the tool's name must match it, across all categories; with an
/// empty query the tool's category must equal the selected one.
pub open spec fn tool_shown(t: ToolView, category: Seq<char>, query: Seq<char>) -> bool {
    if query.len() == 0 {
        t.category == category
    } else {
        name_matches(t.name, query)
    }
}

impl Registry {
    /// The category names as character sequences, in display order.
    pub open spec fn spec_categories(&self) -> Seq<Seq<char>> {
        Seq::new(self.categories@.len(), |i: int| self.categories@[i]@)
    }

    /// The tool records as their views, in registry order.
    pub open spec fn spec_tools(&self) -> Seq<ToolView> {
        Seq::new(self.tools@.len(), |i: int| self.tools@[i]@)
    }

    /// Builds the registry from its two lists.
    pub fn new(categories: Vec<String>, tools: Vec<Tool>) -> (r: Registry)
        ensures
            r.categories@ == categories@,
            r.tools@ == tools@,
    {
        Registry { categories, tools }
    }

    /// The indices of the tools to display, in registry order: exactly
    /// those whose name matches the search query when it is non-empty,
    /// else exactly those filed under the selected category.
    pub fn displayed_indices(&self, selected: usize, query: &String) -> (shown: Vec<usize>)
        requires
            selected < self.categories@.len(),
        ensures
            forall|a: int, b: int| 0 <= a < b < shown@.len() ==> shown@[a] < shown@[b],
            forall|a: int|
                0 <= a < shown@.len() ==> (#[trigger] shown@[a]) < self.spec_tools().len()
                    && tool_shown(
                    self.spec_tools()[shown@[a] as int],
                    self.spec_categories()[selected as int],
                    query@,
                ),
            forall|i: int|
                0 <= i < self.spec_tools().len() && tool_shown(
                    #[trigger] self.spec_tools()[i],
                    self.spec_categories()[selected as int],
                    query@,
                ) ==> exists|a: int| 0 <= a < shown@.len() && #[trigger] shown@[a] == i,
    {
        let mut shown: Vec<usize> = Vec::new();
        let n: usize = self.tools.len();
        let mut idx: usize = 0;
        while idx < n
            invariant
                n == self.tools@.len(),
                idx <= n,
                selected < self.categories@.len(),
                forall|a: int, b: int| 0 <= a < b < shown@.len() ==> shown@[a] < shown@[b],
                forall|a: int|
                    0 <= a < shown@.len() ==> (#[trigger] shown@[a]) < idx && tool_shown(
                        self.spec_tools()[shown@[a] as int],
                        self.spec_categories()[selected as int],
                        query@,
                    ),
                forall|i: int|
                    0 <= i < idx && tool_shown(
                        #[trigger] self.spec_tools()[i],
                        self.spec_categories()[selected as int],
                        query@,
                    ) ==> exists|a: int| 0 <= a < shown@.len() && #[trigger] shown@[a] == i,
            decreases n - idx,
        {
            let tool = &self.tools[idx];
            let keep: bool = if query.as_str().is_empty() {
                tool.category == self.categories[selected]
            } else {
                matches_query(tool.name.as_str(), query.as_str())
            };
            proof {
                assert(self.spec_tools()[idx as int] == self.tools@[idx as int]@);
                assert(self.spec_categories()[selected as int] == self.categories@[selected as int]@);
                assert(keep == tool_shown(
                    self.spec_tools()[idx as int],
                    self.spec_categories()[selected as int],
                    query@,
                ));
            }
            let ghost prev = shown@;
            if keep {
                shown.push(idx);
                proof {
                    assert(shown@ == prev.push(idx));
                    assert forall|a: int, b: int| 0 <= a < b < shown@.len() implies shown@[a]
                        < shown@[b] by {
                        if a < prev.len() {
                            assert(shown@[a] == prev[a]);
                        }
                        if b < prev.len() {
                            assert(shown@[b] == prev[b]);
                        } else {
                            assert(shown@[b] == idx);
                        }
                    }
                    assert forall|a: int| 0 <= a < shown@.len() implies (#[trigger] shown@[a]) < idx
                        + 1 && tool_shown(
                        self.spec_tools()[shown@[a] as int],
                        self.spec_categories()[selected as int],
                        query@,
                    ) by {
                        if a < prev.len() {
                            assert(shown@[a] == prev[a]);
                        } else {
                            assert(shown@[a] == idx);
                        }
                    }
                }
            }
            proof {
                assert forall|i: int|
                    0 <= i < idx + 1 && tool_shown(
                        #[trigger] self.spec_tools()[i],
                        self.spec_categories()[selected as int],
                        query@,
                    ) implies exists|a: int| 0 <= a < shown@.len() && #[trigger] shown@[a] == i by {
                    if i < idx {
                        assert(exists|a: int| 0 <= a < prev.len() && #[trigger] prev[a] == i);
                        let a = choose|a: int| 0 <= a < prev.len() && #[trigger] prev[a] == i;
                        assert(shown@[a] == i);
                    } else {
                        assert(keep);
                        assert(shown@[shown@.len() - 1] == idx);
                    }
                }
            }
            idx = idx + 1;
        }
        shown
    }
}

} // verus!
