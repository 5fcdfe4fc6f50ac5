//! The build board: the status of each buildable's build ("building", "idle")
//! and the output each build has produced, as the terminal interface shows them.
use vstd::prelude::*;

use crate::data::{names_of, Buildable};
use crate::error::DevError;
use crate::table::NameTable;
use crate::text::{join_texts, joined, text_of};

verus! {

/// Statuses and outputs of the builds, by buildable name.
pub struct BuildBoard {
    pub statuses: NameTable<String>,
    pub outputs: NameTable<Vec<String>>,
}

/// The status shown for a buildable: its recorded status, or "idle".
pub open spec fn status_label_spec(statuses: Map<Seq<char>, Seq<char>>, name: Seq<char>) -> Seq<
    char,
> {
    if statuses.contains_key(name) {
        statuses[name]
    } else {
        "idle"@
    }
}

/// The output shown for a buildable: its recorded lines run together, or
/// nothing.
pub open spec fn output_text_spec(outputs: Map<Seq<char>, Seq<Seq<char>>>, name: Seq<char>) -> Seq<
    char,
> {
    if outputs.contains_key(name) {
        joined(outputs[name], Seq::<char>::empty())
    } else {
        Seq::<char>::empty()
    }
}

/// `value` under each of `names`.
pub open spec fn each_name<V>(names: Seq<Seq<char>>, value: V) -> Map<Seq<char>, V> {
    Map::new(|n: Seq<char>| names.contains(n), |n: Seq<char>| value)
}

/// Which of the two alternating backgrounds a row of the list has.
#[derive(Debug, Clone, Copy, PartialEq, Eq, Structural)]
pub enum RowShade {
    Normal,
    Alternate,
}

/// The background of list row `i`: rows alternate, starting with the normal
/// one.
pub fn alternate_colors(i: usize) -> (r: RowShade)
    ensures
        r == (if i % 2 == 0 {
            RowShade::Normal
        } else {
            RowShade::Alternate
        }),
{
    if i % 2 == 0 {
        RowShade::Normal
    } else {
        RowShade::Alternate
    }
}

/// One row of the list of buildables.
#[derive(Debug, Clone, PartialEq, Eq)]
pub struct ListRow {
    pub name: String,
    pub status: String,
    pub activity: String,
    pub shade: RowShade,
}

impl BuildBoard {
    /// No statuses and no outputs.
    pub fn new() -> (r: BuildBoard)
        ensures
            r.statuses.contents() == Map::<Seq<char>, Seq<char>>::empty(),
            r.outputs.contents() == Map::<Seq<char>, Seq<Seq<char>>>::empty(),
    {
        BuildBoard { statuses: NameTable::new(), outputs: NameTable::new() }
    }

    /// Starts a build of every buildable: each gets an empty output and the
    /// status "building"; other entries stay as they were.
    pub fn begin_build(&mut self, buildables: &Vec<Buildable>)
        ensures
            final(self).statuses.contents() == old(self).statuses.contents().union_prefer_right(
                each_name(names_of(buildables@), "building"@),
            ),
            final(self).outputs.contents() == old(self).outputs.contents().union_prefer_right(
                each_name(names_of(buildables@), Seq::<Seq<char>>::empty()),
            ),
    {
        let ghost names = names_of(buildables@);
        let building = "building";
        let n = buildables.len();
        let mut i: usize = 0;
        proof {
            assert(each_name(names.take(0), building@) =~= Map::<Seq<char>, Seq<char>>::empty());
            assert(each_name(names.take(0), Seq::<Seq<char>>::empty()) =~= Map::<
                Seq<char>,
                Seq<Seq<char>>,
            >::empty());
            assert(old(self).statuses.contents().union_prefer_right(
                Map::<Seq<char>, Seq<char>>::empty(),
            ) =~= old(self).statuses.contents());
            assert(old(self).outputs.contents().union_prefer_right(
                Map::<Seq<char>, Seq<Seq<char>>>::empty(),
            ) =~= old(self).outputs.contents());
        }
        while i < n
            invariant
                n == buildables.len(),
                names == names_of(buildables@),
                i <= n,
                self.statuses.contents() == old(self).statuses.contents().union_prefer_right(
                    each_name(names.take(i as int), building@),
                ),
                self.outputs.contents() == old(self).outputs.contents().union_prefer_right(
                    each_name(names.take(i as int), Seq::<Seq<char>>::empty()),
                ),
            decreases n - i,
        {
            let name = buildables[i].name.as_str();
            let empty: Vec<String> = Vec::new();
            assert(empty.deep_view() =~= Seq::<Seq<char>>::empty());
            self.outputs.insert(name, empty);
            self.statuses.insert(name, text_of(building));
            proof {
                let t = names.take(i + 1);
                assert(t =~= names.take(i as int).push(name@));
                assert forall|m: Seq<char>| t.contains(m) <==> (names.take(i as int).contains(m)
                    || m == name@) by {
                    if t.contains(m) {
                        let k = choose|k: int| 0 <= k < t.len() && t[k] == m;
                        if k < i {
                            assert(names.take(i as int)[k] == m);
                        }
                    }
                    if names.take(i as int).contains(m) {
                        let k = choose|k: int|
                            0 <= k < names.take(i as int).len() && names.take(i as int)[k] == m;
                        assert(t[k] == m);
                    }
                    if m == name@ {
                        assert(t[i as int] == m);
                    }
                }
                assert(self.statuses.contents() =~= old(self).statuses.contents().union_prefer_right(
                    each_name(t, building@),
                ));
                assert(self.outputs.contents() =~= old(self).outputs.contents().union_prefer_right(
                    each_name(t, Seq::<Seq<char>>::empty()),
                ));
            }
            i = i + 1;
        }
        proof {
            assert(names.take(n as int) =~= names);
            reveal_strlit("building");
        }
    }

    /// Records that the build of `name` is over: its status becomes "idle".
    pub fn finish_build(&mut self, name: &str)
        ensures
            final(self).statuses.contents() == old(self).statuses.contents().insert(
                name@,
                "idle"@,
            ),
            final(self).outputs.contents() == old(self).outputs.contents(),
    {
        self.statuses.insert(name, text_of("idle"));
    }

    /// Records a line of output of the build of `name` (with a newline added);
    /// refused, with nothing changed, when `name` has no output buffer.
    pub fn record_output(&mut self, name: &str, line: &str) -> (r: Result<(), DevError>)
        ensures
            final(self).statuses.contents() == old(self).statuses.contents(),
            r is Ok <==> old(self).outputs.contents().contains_key(name@),
            r is Ok ==> final(self).outputs.contents() == old(self).outputs.contents().insert(
                name@,
                old(self).outputs.contents()[name@].push(line@ + "\n"@),
            ),
            r matches Err(e) ==> (e matches DevError::NoOutputBuffer(n) && n@ == name@
                && final(self).outputs.contents() == old(self).outputs.contents()),
    {
        let mut text = text_of(line);
        text.append("\n");
        if self.outputs.push_line(name, text) {
            Ok(())
        } else {
            Err(DevError::NoOutputBuffer(text_of(name)))
        }
    }

    /// The status shown for `name`.
    pub fn status_label(&self, name: &str) -> (r: String)
        ensures
            r@ == status_label_spec(self.statuses.contents(), name@),
    {
        match self.statuses.get(name) {
            Some(s) => s.clone(),
            None => text_of("idle"),
        }
    }

    /// The output shown for `name`: its lines run together.
    pub fn output_text(&self, name: &str) -> (r: String)
        ensures
            r@ == output_text_spec(self.outputs.contents(), name@),
    {
        match self.outputs.get(name) {
            Some(lines) => {
                let r = join_texts(lines, 0, "");
                proof {
                    reveal_strlit("");
                    assert(""@ =~= Seq::<char>::empty());
                    assert(lines.deep_view().skip(0) =~= lines.deep_view());
                }
                r
            },
            None => String::new(),
        }
    }

    /// What the detail pane shows: a hint when no row is selected, else the
    /// output of the selected buildable.
    pub fn selected_info(&self, buildables: &Vec<Buildable>, selected: Option<usize>) -> (r: String)
        requires
            selected matches Some(i) ==> i < buildables.len(),
        ensures
            selected is None ==> r@ == "No Module selected"@,
            selected matches Some(i) ==> r@ == output_text_spec(
                self.outputs.contents(),
                buildables@[i as int].name@,
            ),
    {
        match selected {
            None => text_of("No Module selected"),
            Some(i) => self.output_text(buildables[i].name.as_str()),
        }
    }

    /// `row` is how the list shows buildable `b` in row `i`.
    pub open spec fn shows_row(self, row: ListRow, b: Buildable, i: int) -> bool {
        &&& row.name@ == b.name@
        &&& row.status@ == status_label_spec(self.statuses.contents(), b.name@)
        &&& row.activity@ == "active"@
        &&& row.shade == (if i % 2 == 0 {
            RowShade::Normal
        } else {
            RowShade::Alternate
        })
    }

    /// The rows of the list of buildables: name, shown status, activity and
    /// alternating background.
    pub fn list_rows(&self, buildables: &Vec<Buildable>) -> (rows: Vec<ListRow>)
        ensures
            rows.len() == buildables.len(),
            forall|i: int|
                0 <= i < rows.len() ==> self.shows_row(#[trigger] rows@[i], buildables@[i], i),
    {
        let mut rows: Vec<ListRow> = Vec::new();
        let n = buildables.len();
        let mut i: usize = 0;
        while i < n
            invariant
                n == buildables.len(),
                i <= n,
                rows.len() == i,
                forall|k: int|
                    0 <= k < i ==> self.shows_row(#[trigger] rows@[k], buildables@[k], k),
            decreases n - i,
        {
            let name = buildables[i].name.as_str();
            let row = ListRow {
                name: text_of(name),
                status: self.status_label(name),
                activity: text_of("active"),
                shade: alternate_colors(i),
            };
            let ghost prev = rows@;
            rows.push(row);
            proof {
                assert forall|k: int| 0 <= k < i implies rows@[k] == prev[k] by {}
                assert(rows@[i as int] == row);
            }
            i = i + 1;
        }
        rows
    }
}

/// Law: once the build of a buildable is over, it is shown as idle.
pub proof fn law_finished_build_shows_idle(statuses: Map<Seq<char>, Seq<char>>, name: Seq<char>)
    ensures
        status_label_spec(statuses.insert(name, "idle"@), name) == "idle"@,
{
}

/// Law: while a build runs, every buildable it covers is shown as building.
pub proof fn law_begun_build_shows_building(
    statuses: Map<Seq<char>, Seq<char>>,
    buildables: Seq<Buildable>,
    i: int,
)
    requires
        0 <= i < buildables.len(),
    ensures
        status_label_spec(
            statuses.union_prefer_right(each_name(names_of(buildables), "building"@)),
            buildables[i].name@,
        ) == "building"@,
{
    assert(names_of(buildables)[i] == buildables[i].name@);
}

/// Law: recording a line of output makes the shown output grow by exactly
/// that line and its newline.
pub proof fn law_recorded_output_is_appended(
    outputs: Map<Seq<char>, Seq<Seq<char>>>,
    name: Seq<char>,
    line: Seq<char>,
)
    requires
        outputs.contains_key(name),
    ensures
        output_text_spec(outputs.insert(name, outputs[name].push(line + "\n"@)), name)
            == output_text_spec(outputs, name) + line + "\n"@,
{
    let ls = outputs[name];
    let x = line + "\n"@;
    let ls2 = ls.push(x);
    assert(ls2.drop_last() =~= ls);
    if ls.len() == 0 {
        assert(joined(ls, Seq::<char>::empty()) =~= Seq::<char>::empty());
        assert(joined(ls2, Seq::<char>::empty()) == ls2[0]);
    } else {
        assert(joined(ls2, Seq::<char>::empty()) == joined(ls, Seq::<char>::empty())
            + Seq::<char>::empty() + x);
    }
    assert(joined(ls2, Seq::<char>::empty()) =~= joined(ls, Seq::<char>::empty()) + line
        + "\n"@);
}

} // verus!
