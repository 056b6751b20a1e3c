//! The identity of a run and where its output lives.
use crate::path;
use crate::text;
use vstd::prelude::*;

verus! {

/// What a run identity stands for.
pub struct RunIdModel {
    pub name: Seq<char>,
    pub group: Seq<char>,
}

/// A run, identified by its name within a group.
#[derive(Clone, Debug)]
pub struct RunID {
    pub name: String,
    pub group: String,
}

impl View for RunID {
    type V = RunIdModel;

    open spec fn view(&self) -> RunIdModel {
        RunIdModel { name: self.name@, group: self.group@ }
    }
}

/// Where the output of run `id` lives below `base`.
pub open spec fn run_path_spec(id: RunIdModel, base: Seq<char>) -> Seq<char> {
    path::join_spec(path::join_spec(base, id.group), id.name)
}

/// How run `id` is shown: `group/name`.
pub open spec fn run_display_spec(id: RunIdModel) -> Seq<char> {
    id.group + seq!['/'] + id.name
}

/// `s` is one plain path component: not empty and without a separator.
pub open spec fn is_component(s: Seq<char>) -> bool {
    s.len() > 0 && !s.contains('/')
}

pub open spec fn views_of(ids: Seq<RunID>) -> Seq<RunIdModel> {
    ids.map_values(|r: RunID| r@)
}

impl RunID {
    pub fn new(name: &str, group: &str) -> (r: RunID)
        ensures
            r.name@ == name@,
            r.group@ == group@,
    {
        RunID { name: name.to_owned(), group: group.to_owned() }
    }

    /// The directory of this run below `base_path`: `base_path/group/name`.
    pub fn path(&self, base_path: &str) -> (r: String)
        ensures
            r@ == run_path_spec(self@, base_path@),
    {
        let group_dir = path::join(base_path, self.group.as_str());
        path::join(group_dir.as_str(), self.name.as_str())
    }

    /// The run as `group/name`.
    pub fn display(&self) -> (r: String)
        ensures
            r@ == run_display_spec(self@),
    {
        proof {
            reveal_strlit("/");
        }
        let mut out = self.group.clone();
        out.append("/");
        out.append(self.name.as_str());
        out
    }
}

/// The layout of a run's output: its directory is `base/group/name` in the
/// sense of path joining, and it is shown as `group/name`. Where base, group
/// and name are plain (a non-empty base without a final separator; group and
/// name single components), the directory is literally the three joined by
/// separators.
pub proof fn law_run_path_layout(id: RunID, base: Seq<char>)
    ensures
        run_path_spec(id@, base) == path::join_spec(path::join_spec(base, id@.group), id@.name),
        run_display_spec(id@) == id@.group + seq!['/'] + id@.name,
        base.len() > 0 && base.last() != '/' && is_component(id@.group) && is_component(
            id@.name,
        ) ==> run_path_spec(id@, base) == base + seq!['/'] + id@.group + seq!['/'] + id@.name,
{
    if base.len() > 0 && base.last() != '/' && is_component(id@.group) && is_component(id@.name) {
        let g = id@.group;
        assert(g[0] != '/') by {
            assert(!g.contains('/'));
        }
        assert(id@.name[0] != '/') by {
            assert(!id@.name.contains('/'));
        }
        assert(g.last() != '/') by {
            assert(!g.contains('/'));
            assert(g[g.len() - 1] == g.last());
        }
        let bg = path::join_spec(base, g);
        assert(bg == base + seq!['/'] + g);
        assert(bg.last() == g.last());
        assert(run_path_spec(id@, base) =~= base + seq!['/'] + g + seq!['/'] + id@.name);
    }
}

/// The run named by a line of a directory listing `.../group/name`: its last
/// two fields between separators, both non-empty.
pub open spec fn run_of_listing_line(line: Seq<char>) -> Option<RunIdModel> {
    let f = text::split_spec(line, '/');
    if f.len() >= 2 && f[f.len() - 1].len() > 0 && f[f.len() - 2].len() > 0 {
        Some(RunIdModel { name: f[f.len() - 1], group: f[f.len() - 2] })
    } else {
        None
    }
}

/// The run named by a line of the terminal multiplexer's session list: the
/// session name before the first `:`, which must be `group/name`, exactly two
/// fields around one separator (either may be empty).
pub open spec fn run_of_session_line(line: Seq<char>) -> Option<RunIdModel> {
    let session = text::split_spec(line, ':')[0];
    let f = text::split_spec(session, '/');
    if f.len() == 2 {
        Some(RunIdModel { name: f[1], group: f[0] })
    } else {
        None
    }
}

/// The runs named by the lines of a directory listing, in order; lines that
/// name none are passed over.
pub open spec fn listing_runs(lines: Seq<Seq<char>>) -> Seq<RunIdModel>
    decreases lines.len(),
{
    if lines.len() == 0 {
        Seq::empty()
    } else {
        let before = listing_runs(lines.drop_last());
        match run_of_listing_line(lines.last()) {
            Some(id) => before.push(id),
            None => before,
        }
    }
}

/// The runs named by the lines of a session list, in order; sessions whose
/// name is not `group/name` are passed over.
pub open spec fn session_runs(lines: Seq<Seq<char>>) -> Seq<RunIdModel>
    decreases lines.len(),
{
    if lines.len() == 0 {
        Seq::empty()
    } else {
        let before = session_runs(lines.drop_last());
        match run_of_session_line(lines.last()) {
            Some(id) => before.push(id),
            None => before,
        }
    }
}

fn run_from_listing_line(line: &str) -> (r: Option<RunID>)
    ensures
        r matches Some(id) ==> run_of_listing_line(line@) == Some(id@),
        r is None ==> run_of_listing_line(line@) is None,
{
    let f = text::split(line, '/');
    proof {
        text::lemma_split_nonempty(line@, '/', 0, Seq::empty(), Seq::empty());
    }
    let k = f.len();
    if k >= 2 && f[k - 1].as_str().unicode_len() > 0 && f[k - 2].as_str().unicode_len() > 0 {
        assert(f.deep_view()[k - 1] == f[k - 1]@);
        assert(f.deep_view()[k - 2] == f[k - 2]@);
        Some(RunID::new(f[k - 1].as_str(), f[k - 2].as_str()))
    } else {
        proof {
            if k >= 2 {
                assert(f.deep_view()[k - 1] == f[k - 1]@);
                assert(f.deep_view()[k - 2] == f[k - 2]@);
            }
        }
        None
    }
}

fn run_from_session_line(line: &str) -> (r: Option<RunID>)
    ensures
        r matches Some(id) ==> run_of_session_line(line@) == Some(id@),
        r is None ==> run_of_session_line(line@) is None,
{
    let parts = text::split(line, ':');
    proof {
        text::lemma_split_nonempty(line@, ':', 0, Seq::empty(), Seq::empty());
    }
    assert(parts.deep_view()[0] == parts[0]@);
    let f = text::split(parts[0].as_str(), '/');
    if f.len() == 2 {
        assert(f.deep_view()[0] == f[0]@);
        assert(f.deep_view()[1] == f[1]@);
        Some(RunID::new(f[1].as_str(), f[0].as_str()))
    } else {
        None
    }
}

/// The runs named by the lines of `output`, a listing of the run directories
/// two levels below the output base (`.../group/name` per line).
pub fn parse_run_listing(output: &str) -> (r: Vec<RunID>)
    ensures
        views_of(r@) == listing_runs(text::lines_spec(output@)),
{
    let ls = text::lines(output);
    let mut out: Vec<RunID> = Vec::new();
    let mut i: usize = 0;
    while i < ls.len()
        invariant
            i <= ls.len(),
            views_of(out@) == listing_runs(ls.deep_view().subrange(0, i as int)),
        decreases ls.len() - i,
    {
        assert(ls.deep_view().subrange(0, i + 1).drop_last() == ls.deep_view().subrange(
            0,
            i as int,
        ));
        assert(ls.deep_view()[i as int] == ls[i as int]@);
        match run_from_listing_line(ls[i].as_str()) {
            Some(id) => {
                let ghost before = out@;
                out.push(id);
                assert(views_of(out@) =~= views_of(before).push(id@));
            },
            None => {},
        }
        i = i + 1;
    }
    assert(ls.deep_view().subrange(0, ls.len() as int) == ls.deep_view());
    out
}

/// The runs named by the sessions of `output`, the terminal multiplexer's
/// session list; sessions whose name is not two fields around one `/` are
/// passed over.
pub fn parse_session_listing(output: &str) -> (r: Vec<RunID>)
    ensures
        views_of(r@) == session_runs(text::lines_spec(output@)),
{
    let ls = text::lines(output);
    let mut out: Vec<RunID> = Vec::new();
    let mut i: usize = 0;
    while i < ls.len()
        invariant
            i <= ls.len(),
            views_of(out@) == session_runs(ls.deep_view().subrange(0, i as int)),
        decreases ls.len() - i,
    {
        assert(ls.deep_view().subrange(0, i + 1).drop_last() == ls.deep_view().subrange(
            0,
            i as int,
        ));
        assert(ls.deep_view()[i as int] == ls[i as int]@);
        match run_from_session_line(ls[i].as_str()) {
            Some(id) => {
                let ghost before = out@;
                out.push(id);
                assert(views_of(out@) =~= views_of(before).push(id@));
            },
            None => {},
        }
        i = i + 1;
    }
    assert(ls.deep_view().subrange(0, ls.len() as int) == ls.deep_view());
    out
}

} // verus!
