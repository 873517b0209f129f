//! The tool selector: which tools are ticked, and what a run over them covers.

use vstd::prelude::*;
use crate::text::{str_eq, strs};

verus! {

/// The state of the tool selector: one box for each name, the box named
/// `All` standing for every tool.
#[derive(Debug)]
pub struct ToolSelectorApp {
    pub tool_names: Vec<&'static str>,
    pub selected: Vec<bool>,
    /// The output folder the user chose, if any.
    pub custom_path: Option<String>,
}

/// The names of the selector as it starts.
pub open spec fn default_tool_names() -> Seq<Seq<char>> {
    seq!["Yara"@, "Suricata"@, "Sigma"@, "Splunk"@, "QRadar"@, "All"@]
}

/// The place of the first box named `All`, if there is one.
pub open spec fn all_index(names: Seq<Seq<char>>) -> Option<int> {
    names.index_of_first("All"@)
}

/// Whether the boxes before the last are all ticked.
pub open spec fn all_but_last(selected: Seq<bool>) -> bool {
    forall|j: int| 0 <= j < selected.len() - 1 ==> #[trigger] selected[j]
}

/// The boxes after a click on box `i`. The box flips. A click on `All` sets
/// every box to what `All` shows now. A click on another box unticks `All`,
/// and ticks it again where all boxes before the last are ticked.
pub open spec fn toggled(names: Seq<Seq<char>>, selected: Seq<bool>, i: int) -> Seq<bool> {
    let flipped = selected.update(i, !selected[i]);
    if names[i] == "All"@ {
        Seq::new(selected.len(), |j: int| flipped[i])
    } else {
        match all_index(names) {
            None => flipped,
            Some(a) => {
                let cleared = flipped.update(a, false);
                if all_but_last(cleared) {
                    cleared.update(a, true)
                } else {
                    cleared
                }
            },
        }
    }
}

/// The names other than `All`, in order.
pub open spec fn tools_of(names: Seq<Seq<char>>) -> Seq<Seq<char>> {
    names.filter(|n: Seq<char>| n != "All"@)
}

/// Whether the `k`-th tool runs: its box is ticked, or `All` is.
pub open spec fn runs(names: Seq<Seq<char>>, selected: Seq<bool>, k: int) -> bool {
    selected[k] || match all_index(names) {
        Some(a) => selected[a],
        None => false,
    }
}

/// The first `n` tools that run, in order.
pub open spec fn chosen(names: Seq<Seq<char>>, selected: Seq<bool>, n: int) -> Seq<Seq<char>>
    decreases n,
{
    if n <= 0 {
        seq![]
    } else if runs(names, selected, n - 1) {
        chosen(names, selected, n - 1).push(tools_of(names)[n - 1])
    } else {
        chosen(names, selected, n - 1)
    }
}

impl Default for ToolSelectorApp {
    fn default() -> (app: Self)
        ensures
            app.is_fresh(),
            app.well_formed(),
    {
        let tool_names = vec!["Yara", "Suricata", "Sigma", "Splunk", "QRadar", "All"];
        let selected = vec![false, false, false, false, false, false];
        assert(strs(tool_names@) =~= default_tool_names());
        assert(selected@ =~= Seq::new(6, |i: int| false));
        ToolSelectorApp { tool_names, selected, custom_path: None }
    }
}

impl ToolSelectorApp {
    /// The selector as it starts: the tools and `All`, nothing ticked, and no
    /// folder chosen.
    pub open spec fn is_fresh(&self) -> bool {
        &&& strs(self.tool_names@) == default_tool_names()
        &&& self.selected@ == Seq::new(6, |i: int| false)
        &&& self.custom_path is None
    }

    /// Every name has its box.
    pub open spec fn well_formed(&self) -> bool {
        self.selected@.len() == self.tool_names@.len()
    }

    /// The place of the first box named `All`.
    pub fn find_all(&self) -> (r: Option<usize>)
        ensures
            match r {
                Some(a) => a < self.tool_names@.len() && all_index(strs(self.tool_names@)) == Some(
                    a as int,
                ),
                None => all_index(strs(self.tool_names@)) is None,
            },
    {
        let ghost names = strs(self.tool_names@);
        proof {
            names.index_of_first_ensures("All"@);
        }
        let mut i: usize = 0;
        while i < self.tool_names.len()
            invariant
                i <= self.tool_names.len(),
                names == strs(self.tool_names@),
                forall|j: int| 0 <= j < i ==> #[trigger] names[j] != "All"@,
            decreases self.tool_names.len() - i,
        {
            if str_eq(self.tool_names[i], "All") {
                proof {
                    names.index_of_first_ensures("All"@);
                    assert(names[i as int] == "All"@);
                }
                return Some(i);
            }
            i += 1;
        }
        proof {
            names.index_of_first_ensures("All"@);
        }
        None
    }

    /// Takes a click on box `i`.
    pub fn toggle(&mut self, i: usize)
        requires
            old(self).well_formed(),
            i < old(self).tool_names@.len(),
        ensures
            final(self).tool_names == old(self).tool_names,
            final(self).custom_path == old(self).custom_path,
            final(self).selected@ == toggled(
                strs(old(self).tool_names@),
                old(self).selected@,
                i as int,
            ),
            final(self).well_formed(),
    {
        let ghost names = strs(self.tool_names@);
        let ghost before = self.selected@;
        let now = !self.selected[i];
        self.selected.set(i, now);
        let ghost flipped = self.selected@;
        assert(flipped == before.update(i as int, !before[i as int]));
        if str_eq(self.tool_names[i], "All") {
            let mut j: usize = 0;
            while j < self.selected.len()
                invariant
                    j <= self.selected.len(),
                    self.selected@.len() == before.len(),
                    self.tool_names == old(self).tool_names,
                    self.custom_path == old(self).custom_path,
                    forall|k: int| 0 <= k < j ==> #[trigger] self.selected@[k] == now,
                decreases self.selected.len() - j,
            {
                self.selected.set(j, now);
                j += 1;
            }
            assert(self.selected@ =~= Seq::new(before.len(), |j: int| flipped[i as int]));
        } else {
            match self.find_all() {
                None => {},
                Some(a) => {
                    self.selected.set(a, false);
                    let ghost cleared = self.selected@;
                    let last = self.selected.len() - 1;
                    let mut all_selected = true;
                    let mut j: usize = 0;
                    while j < last
                        invariant
                            j <= last,
                            last == self.selected.len() - 1,
                            self.selected@ == cleared,
                            self.tool_names == old(self).tool_names,
                            self.custom_path == old(self).custom_path,
                            all_selected == forall|k: int| 0 <= k < j ==> #[trigger] cleared[k],
                        decreases last - j,
                    {
                        if !self.selected[j] {
                            all_selected = false;
                        }
                        j += 1;
                    }
                    assert(all_selected == all_but_last(cleared));
                    if all_selected {
                        self.selected.set(a, true);
                    }
                },
            }
        }
    }

    /// The tools, that is the names other than `All`, in order.
    pub fn tools(&self) -> (out: Vec<&'static str>)
        ensures
            strs(out@) == tools_of(strs(self.tool_names@)),
    {
        let ghost names = strs(self.tool_names@);
        let ghost keep = |n: Seq<char>| n != "All"@;
        let mut out: Vec<&'static str> = Vec::new();
        let mut i: usize = 0;
        assert(strs(out@) =~= names.take(0).filter(keep));
        while i < self.tool_names.len()
            invariant
                i <= self.tool_names.len(),
                names == strs(self.tool_names@),
                keep == |n: Seq<char>| n != "All"@,
                strs(out@) == names.take(i as int).filter(keep),
            decreases self.tool_names.len() - i,
        {
            let name = self.tool_names[i];
            proof {
                assert(names.take(i + 1) == names.take(i as int).push(name@));
                names.take(i as int).lemma_filter_push(name@, keep);
            }
            if !str_eq(name, "All") {
                out.push(name);
                assert(strs(out@) =~= names.take(i as int).filter(keep).push(name@));
            }
            i += 1;
        }
        assert(names.take(self.tool_names.len() as int) == names);
        out
    }

    /// The tools that a run takes up: those whose box is ticked, and all of
    /// them where `All` is ticked. A tool's box is the one at its place among
    /// the tools.
    pub fn selected_tools(&self) -> (out: Vec<&'static str>)
        requires
            self.well_formed(),
        ensures
            strs(out@) == chosen(
                strs(self.tool_names@),
                self.selected@,
                tools_of(strs(self.tool_names@)).len() as int,
            ),
    {
        let ghost names = strs(self.tool_names@);
        let tools = self.tools();
        proof {
            names.lemma_filter_len(|n: Seq<char>| n != "All"@);
            assert(strs(tools@).len() == tools@.len());
        }
        let all_ticked = match self.find_all() {
            Some(a) => self.selected[a],
            None => false,
        };
        let mut out: Vec<&'static str> = Vec::new();
        let mut k: usize = 0;
        assert(strs(out@) =~= chosen(names, self.selected@, 0));
        while k < tools.len()
            invariant
                k <= tools.len(),
                tools@.len() <= self.selected@.len(),
                names == strs(self.tool_names@),
                strs(tools@) == tools_of(names),
                all_ticked == match all_index(names) {
                    Some(a) => self.selected@[a],
                    None => false,
                },
                strs(out@) == chosen(names, self.selected@, k as int),
            decreases tools.len() - k,
        {
            if self.selected[k] || all_ticked {
                out.push(tools[k]);
                assert(strs(tools@)[k as int] == tools@[k as int]@);
                assert(strs(out@) =~= chosen(names, self.selected@, k as int).push(
                    tools_of(names)[k as int],
                ));
            }
            k += 1;
        }
        assert(strs(tools@).len() == tools@.len());
        out
    }

    /// Whether any box is ticked.
    pub fn any_selected(&self) -> (any: bool)
        ensures
            any == exists|i: int| 0 <= i < self.selected@.len() && self.selected@[i],
    {
        let mut i: usize = 0;
        while i < self.selected.len()
            invariant
                i <= self.selected.len(),
                forall|j: int| 0 <= j < i ==> !self.selected@[j],
            decreases self.selected.len() - i,
        {
            if self.selected[i] {
                return true;
            }
            i += 1;
        }
        false
    }
}

} // verus!
