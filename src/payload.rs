//! Payload resolution: for each code component, whether the run takes the
//! local working copy or a pinned revision, and where the configuration
//! directory is.
use crate::cfg::{AuxiliaryMappingConfig, CodeMappingConfig, LocalCodeSourceConfig, PayloadMappingConfig};
use crate::path;
use crate::text;
use vstd::prelude::*;

verus! {

/// Where the code of a component comes from.
pub enum CodeSource {
    /// A pinned revision of a repository.
    Remote { url: String, git_revision: String },
    /// The working copy on disk, with the patterns left out of the copy.
    Local { path: String, copy_excludes: Vec<String> },
}

pub enum CodeSourceModel {
    Remote { url: Seq<char>, git_revision: Seq<char> },
    Local { path: Seq<char>, copy_excludes: Seq<Seq<char>> },
}

impl View for CodeSource {
    type V = CodeSourceModel;

    open spec fn view(&self) -> CodeSourceModel {
        match self {
            CodeSource::Remote { url, git_revision } => CodeSourceModel::Remote {
                url: url@,
                git_revision: git_revision@,
            },
            CodeSource::Local { path, copy_excludes } => CodeSourceModel::Local {
                path: path@,
                copy_excludes: copy_excludes.deep_view(),
            },
        }
    }
}

impl CodeSource {
    /// The pinned revision, for a remote source.
    pub fn git_revision(&self) -> (r: Option<&String>)
        ensures
            match self {
                CodeSource::Remote { git_revision, .. } => r == Some(git_revision),
                CodeSource::Local { .. } => r is None,
            },
    {
        match self {
            CodeSource::Remote { git_revision, .. } => Some(git_revision),
            CodeSource::Local { .. } => None,
        }
    }
}

/// A code component: its source and where it goes in the run directory.
pub struct CodeMapping {
    pub id: String,
    pub source: CodeSource,
    /// Relative to the run directory.
    pub target_path: String,
}

pub struct CodeMappingModel {
    pub id: Seq<char>,
    pub source: CodeSourceModel,
    pub target_path: Seq<char>,
}

impl View for CodeMapping {
    type V = CodeMappingModel;

    open spec fn view(&self) -> CodeMappingModel {
        CodeMappingModel { id: self.id@, source: self.source@, target_path: self.target_path@ }
    }
}

/// The configuration directory and its entry point.
pub struct ConfigSource {
    /// Relative to the configuration directory.
    pub entrypoint_path: String,
    pub dir_path: String,
}

/// A directory copied as it is into the run directory.
pub struct AuxiliaryMapping {
    pub source_path: String,
    pub target_path: String,
    pub copy_excludes: Vec<String>,
}

pub struct AuxiliaryMappingModel {
    pub source_path: Seq<char>,
    pub target_path: Seq<char>,
    pub copy_excludes: Seq<Seq<char>>,
}

impl View for AuxiliaryMapping {
    type V = AuxiliaryMappingModel;

    open spec fn view(&self) -> AuxiliaryMappingModel {
        AuxiliaryMappingModel {
            source_path: self.source_path@,
            target_path: self.target_path@,
            copy_excludes: self.copy_excludes.deep_view(),
        }
    }
}

/// Everything a run needs besides its script.
pub struct PayloadMapping {
    pub code_mappings: Vec<CodeMapping>,
    pub config_source: ConfigSource,
    pub auxiliary_mappings: Vec<AuxiliaryMapping>,
}

/// Why a payload could not be resolved: the configuration or the request
/// contradicts itself.
#[derive(Debug)]
pub enum PayloadError {
    /// An id whose revision is to be ignored names no code component.
    UnknownIgnoreId(String),
    /// An id whose revision is to be ignored is named more than once.
    DuplicateIgnoreId(String),
    /// Two code components have this id.
    DuplicateComponentId(String),
    /// The configuration directory is not relative.
    AbsoluteConfigDir(String),
    /// The configuration directory is empty or `.`.
    InvalidConfigDir(String),
    /// The configuration entry point is not relative.
    AbsoluteEntrypoint(String),
    /// The configuration entry point does not lie below the configuration
    /// directory.
    EntrypointOutsideConfigDir(String),
    /// The target of the code component with this id is not relative.
    AbsoluteTarget(String),
}

pub enum PayloadErrorModel {
    UnknownIgnoreId(Seq<char>),
    DuplicateIgnoreId(Seq<char>),
    DuplicateComponentId(Seq<char>),
    AbsoluteConfigDir(Seq<char>),
    InvalidConfigDir(Seq<char>),
    AbsoluteEntrypoint(Seq<char>),
    EntrypointOutsideConfigDir(Seq<char>),
    AbsoluteTarget(Seq<char>),
}

impl View for PayloadError {
    type V = PayloadErrorModel;

    open spec fn view(&self) -> PayloadErrorModel {
        match self {
            PayloadError::UnknownIgnoreId(s) => PayloadErrorModel::UnknownIgnoreId(s@),
            PayloadError::DuplicateIgnoreId(s) => PayloadErrorModel::DuplicateIgnoreId(s@),
            PayloadError::DuplicateComponentId(s) => PayloadErrorModel::DuplicateComponentId(s@),
            PayloadError::AbsoluteConfigDir(s) => PayloadErrorModel::AbsoluteConfigDir(s@),
            PayloadError::InvalidConfigDir(s) => PayloadErrorModel::InvalidConfigDir(s@),
            PayloadError::AbsoluteEntrypoint(s) => PayloadErrorModel::AbsoluteEntrypoint(s@),
            PayloadError::EntrypointOutsideConfigDir(s) => PayloadErrorModel::EntrypointOutsideConfigDir(
                s@,
            ),
            PayloadError::AbsoluteTarget(s) => PayloadErrorModel::AbsoluteTarget(s@),
        }
    }
}

pub open spec fn code_ids(code: Seq<CodeMappingConfig>) -> Seq<Seq<char>> {
    code.map_values(|c: CodeMappingConfig| c.id@)
}

/// `ignore[i]` occurs elsewhere in `ignore` too.
pub open spec fn repeated_at(ignore: Seq<Seq<char>>, i: int) -> bool {
    exists|j: int| 0 <= j < ignore.len() && j != i && ignore[j] == ignore[i]
}

/// The first problem with the ignore list from index `i` on: an id that names
/// no component, or one that is named twice, whichever comes first.
pub open spec fn ignore_problem_from(ids: Seq<Seq<char>>, ignore: Seq<Seq<char>>, i: int) -> Option<
    PayloadErrorModel,
>
    decreases ignore.len() - i,
{
    if i < 0 || i >= ignore.len() {
        None
    } else if !ids.contains(ignore[i]) {
        Some(PayloadErrorModel::UnknownIgnoreId(ignore[i]))
    } else if repeated_at(ignore, i) {
        Some(PayloadErrorModel::DuplicateIgnoreId(ignore[i]))
    } else {
        ignore_problem_from(ids, ignore, i + 1)
    }
}

pub open spec fn ignore_problem(ids: Seq<Seq<char>>, ignore: Seq<Seq<char>>) -> Option<
    PayloadErrorModel,
> {
    ignore_problem_from(ids, ignore, 0)
}

/// The index of the first component whose target is absolute, from `i` on.
pub open spec fn first_absolute_target_from(code: Seq<CodeMappingConfig>, i: int) -> Option<int>
    decreases code.len() - i,
{
    if i < 0 || i >= code.len() {
        None
    } else if path::is_absolute_spec(code[i].target@) {
        Some(i)
    } else {
        first_absolute_target_from(code, i + 1)
    }
}

/// The index of the first component whose id another component has too,
/// from `i` on.
pub open spec fn first_repeated_id_from(ids: Seq<Seq<char>>, i: int) -> Option<int>
    decreases ids.len() - i,
{
    if i < 0 || i >= ids.len() {
        None
    } else if repeated_at(ids, i) {
        Some(i)
    } else {
        first_repeated_id_from(ids, i + 1)
    }
}

/// The configuration directory as a name: without separators at its end.
pub open spec fn config_dir_name(dir: Seq<char>) -> Seq<char> {
    path::trim_trailing_slashes_spec(dir)
}

/// A configuration directory that names a directory below the project: not
/// empty and not the project itself.
pub open spec fn config_dir_valid(dir: Seq<char>) -> bool {
    config_dir_name(dir).len() > 0 && config_dir_name(dir) != "."@
}

/// `entry` lies below `dir`: it is `dir/` followed by a non-empty rest.
pub open spec fn entry_below(dir: Seq<char>, entry: Seq<char>) -> bool {
    let prefix = config_dir_name(dir).push('/');
    prefix.len() < entry.len() && entry.subrange(0, prefix.len() as int) == prefix
}

/// The entry point relative to the configuration directory.
pub open spec fn entry_in_dir(dir: Seq<char>, entry: Seq<char>) -> Seq<char> {
    entry.subrange(config_dir_name(dir).len() as int + 1, entry.len() as int)
}

/// The first thing wrong with resolving `c` with the ignore list `ignore`,
/// checked in this order: the ignore list, the component ids, the
/// configuration directory, the entry point, the targets of the components.
pub open spec fn payload_problem(c: PayloadMappingConfig, ignore: Seq<Seq<char>>) -> Option<
    PayloadErrorModel,
> {
    if ignore_problem(code_ids(c.code@), ignore) is Some {
        ignore_problem(code_ids(c.code@), ignore)
    } else if first_repeated_id_from(code_ids(c.code@), 0) is Some {
        Some(
            PayloadErrorModel::DuplicateComponentId(
                code_ids(c.code@)[first_repeated_id_from(code_ids(c.code@), 0)->0],
            ),
        )
    } else if path::is_absolute_spec(c.config.dir@) {
        Some(PayloadErrorModel::AbsoluteConfigDir(c.config.dir@))
    } else if !config_dir_valid(c.config.dir@) {
        Some(PayloadErrorModel::InvalidConfigDir(c.config.dir@))
    } else if path::is_absolute_spec(c.config.entrypoint@) {
        Some(PayloadErrorModel::AbsoluteEntrypoint(c.config.entrypoint@))
    } else if !entry_below(c.config.dir@, c.config.entrypoint@) {
        Some(PayloadErrorModel::EntrypointOutsideConfigDir(c.config.entrypoint@))
    } else if first_absolute_target_from(c.code@, 0) is Some {
        Some(
            PayloadErrorModel::AbsoluteTarget(
                c.code@[first_absolute_target_from(c.code@, 0)->0].id@,
            ),
        )
    } else {
        None
    }
}

/// The patterns of a `.gitignore` file: its lines but comments and empty ones.
pub open spec fn gitignore_patterns_spec(lines: Seq<Seq<char>>) -> Seq<Seq<char>>
    decreases lines.len(),
{
    if lines.len() == 0 {
        Seq::empty()
    } else {
        let before = gitignore_patterns_spec(lines.drop_last());
        let l = lines.last();
        if l.len() == 0 || l[0] == '#' {
            before
        } else {
            before.push(l)
        }
    }
}

/// `all` without the patterns that `removed` holds.
pub open spec fn without(all: Seq<Seq<char>>, removed: Seq<Seq<char>>) -> Seq<Seq<char>>
    decreases all.len(),
{
    if all.len() == 0 {
        Seq::empty()
    } else {
        let before = without(all.drop_last(), removed);
        if removed.contains(all.last()) {
            before
        } else {
            before.push(all.last())
        }
    }
}

pub open spec fn optional_strings(o: Option<Vec<String>>) -> Seq<Seq<char>> {
    match o {
        Some(v) => v.deep_view(),
        None => Seq::empty(),
    }
}

/// The patterns left out when the working copy of `l` is copied: the
/// repository metadata directory, the configuration directory unless it is
/// kept, the patterns of `.gitignore`, the configured additions; then the
/// configured subtractions are taken out.
pub open spec fn local_excludes(
    l: LocalCodeSourceConfig,
    config_dir: Seq<char>,
    patterns: Seq<Seq<char>>,
) -> Seq<Seq<char>> {
    let all = seq!["/.git/"@] + (if l.no_config_exclude {
        Seq::empty()
    } else {
        seq!["/"@ + config_dir + "/"@]
    }) + patterns + optional_strings(l.gitignore_exclude_additions);
    match l.gitignore_exclude_subtractions {
        Some(s) => without(all, s.deep_view()),
        None => all,
    }
}

/// The mapping of the component `c`: its working copy where its id is in the
/// ignore list, its pinned revision otherwise.
pub open spec fn code_mapping_of(
    c: CodeMappingConfig,
    ignore: Seq<Seq<char>>,
    config_dir: Seq<char>,
    patterns: Seq<Seq<char>>,
) -> CodeMappingModel {
    CodeMappingModel {
        id: c.id@,
        source: if ignore.contains(c.id@) {
            CodeSourceModel::Local {
                path: c.local.path@,
                copy_excludes: local_excludes(c.local, config_dir, patterns),
            }
        } else {
            CodeSourceModel::Remote { url: c.remote.url@, git_revision: c.remote.revision@ }
        },
        target_path: c.target@,
    }
}

pub open spec fn auxiliary_mapping_of(a: AuxiliaryMappingConfig) -> AuxiliaryMappingModel {
    AuxiliaryMappingModel {
        source_path: a.path@,
        target_path: a.target@,
        copy_excludes: optional_strings(a.excludes),
    }
}

pub open spec fn auxiliary_configs(o: Option<Vec<AuxiliaryMappingConfig>>) -> Seq<
    AuxiliaryMappingConfig,
> {
    match o {
        Some(v) => v@,
        None => Seq::empty(),
    }
}

/// The configuration directory: an override, resolved against `base` where it
/// is relative and taken as it is where it is absolute; without one, the
/// configured directory below `base`.
pub open spec fn config_dir_spec(
    override_path: Option<Seq<char>>,
    base: Seq<char>,
    configured: Seq<char>,
) -> Seq<char> {
    match override_path {
        Some(o) => if path::is_absolute_spec(o) {
            o
        } else {
            path::join_spec(base, o)
        },
        None => path::join_spec(base, configured),
    }
}

pub open spec fn opt_view(o: Option<&str>) -> Option<Seq<char>> {
    match o {
        Some(s) => Some(s@),
        None => None,
    }
}

/// The configuration directory for an override `config_dir_override_path`,
/// resolved against `config_base_dir`.
pub fn resolve_config_dir(
    config_dir_override_path: Option<&str>,
    config_base_dir: &str,
    configured_dir: &str,
) -> (r: String)
    ensures
        r@ == config_dir_spec(opt_view(config_dir_override_path), config_base_dir@, configured_dir@),
{
    match config_dir_override_path {
        Some(o) => if path::is_absolute(o) {
            o.to_owned()
        } else {
            path::join(config_base_dir, o)
        },
        None => path::join(config_base_dir, configured_dir),
    }
}

/// Config-dir override resolution: a relative override resolves against the
/// base directory, an absolute one is used as it is, and without one the
/// configured directory is joined to the base.
pub proof fn law_config_dir_resolution(override_path: Seq<char>, base: Seq<char>, configured: Seq<char>)
    ensures
        !path::is_absolute_spec(override_path) ==> config_dir_spec(Some(override_path), base, configured)
            == path::join_spec(base, override_path),
        !path::is_absolute_spec(override_path) && base.len() > 0 && base.last() != '/'
            ==> config_dir_spec(Some(override_path), base, configured) == base + seq!['/']
            + override_path,
        path::is_absolute_spec(override_path) ==> config_dir_spec(Some(override_path), base, configured)
            == override_path,
        config_dir_spec(None, base, configured) == path::join_spec(base, configured),
{
}

pub proof fn lemma_bad_ignore_id_found(ids: Seq<Seq<char>>, ignore: Seq<Seq<char>>, i: int, k: int)
    requires
        0 <= i <= k < ignore.len(),
        !ids.contains(ignore[k]) || repeated_at(ignore, k),
    ensures
        ignore_problem_from(ids, ignore, i) matches Some(e) && (e is UnknownIgnoreId
            || e is DuplicateIgnoreId),
    decreases k - i,
{
    if i < k && ids.contains(ignore[i]) && !repeated_at(ignore, i) {
        lemma_bad_ignore_id_found(ids, ignore, i + 1, k);
    }
}

/// Revision-ignore validation: an ignore list that names an id of no
/// configured component, or names an id twice, is rejected, with an error
/// about the ignore list, before anything else is looked at.
pub proof fn law_ignore_list_validation(c: PayloadMappingConfig, ignore: Seq<Seq<char>>, k: int)
    requires
        0 <= k < ignore.len(),
        !code_ids(c.code@).contains(ignore[k]) || exists|j: int|
            0 <= j < ignore.len() && j != k && ignore[j] == ignore[k],
    ensures
        payload_problem(c, ignore) matches Some(e) && (e is UnknownIgnoreId
            || e is DuplicateIgnoreId),
{
    lemma_bad_ignore_id_found(code_ids(c.code@), ignore, 0, k);
}

fn contains_str(v: &Vec<String>, s: &str) -> (r: bool)
    ensures
        r == v.deep_view().contains(s@),
{
    let mut i: usize = 0;
    while i < v.len()
        invariant
            i <= v.len(),
            forall|j: int| 0 <= j < i ==> v.deep_view()[j] != s@,
        decreases v.len() - i,
    {
        if text::str_eq(v[i].as_str(), s) {
            assert(v.deep_view()[i as int] == s@);
            return true;
        }
        i = i + 1;
    }
    false
}

fn is_repeated(v: &Vec<String>, i: usize) -> (r: bool)
    requires
        i < v.len(),
    ensures
        r == repeated_at(v.deep_view(), i as int),
{
    let mut j: usize = 0;
    while j < v.len()
        invariant
            i < v.len(),
            j <= v.len(),
            forall|k: int| 0 <= k < j && k != i ==> v.deep_view()[k] != v.deep_view()[i as int],
        decreases v.len() - j,
    {
        if j != i && text::str_eq(v[j].as_str(), v[i].as_str()) {
            assert(v.deep_view()[j as int] == v.deep_view()[i as int]);
            return true;
        }
        j = j + 1;
    }
    false
}

fn find_repeated(ids: &Vec<String>) -> (r: Option<usize>)
    ensures
        match r {
            Some(i) => i < ids.len() && first_repeated_id_from(ids.deep_view(), 0) == Some(i as int),
            None => first_repeated_id_from(ids.deep_view(), 0) is None && text::unique_ids(ids.deep_view()),
        },
{
    let mut i: usize = 0;
    while i < ids.len()
        invariant
            i <= ids.len(),
            first_repeated_id_from(ids.deep_view(), 0) == first_repeated_id_from(ids.deep_view(), i as int),
            forall|k: int| 0 <= k < i ==> !repeated_at(ids.deep_view(), k),
        decreases ids.len() - i,
    {
        if is_repeated(ids, i) {
            return Some(i);
        }
        i = i + 1;
    }
    assert forall|a: int, b: int|
        0 <= a < ids.deep_view().len() && 0 <= b < ids.deep_view().len() && a != b implies ids.deep_view()[a]
            != ids.deep_view()[b] by {
        assert(!repeated_at(ids.deep_view(), a));
    }
    None
}

fn configured_ids(code: &Vec<CodeMappingConfig>) -> (r: Vec<String>)
    ensures
        r.deep_view() == code_ids(code@),
{
    let mut out: Vec<String> = Vec::new();
    let mut i: usize = 0;
    while i < code.len()
        invariant
            i <= code.len(),
            out.deep_view() == code_ids(code@.subrange(0, i as int)),
        decreases code.len() - i,
    {
        let ghost before = out.deep_view();
        out.push(code[i].id.clone());
        assert(out.deep_view() =~= before.push(code@[i as int].id@));
        assert(code@.subrange(0, i + 1) =~= code@.subrange(0, i as int).push(code@[i as int]));
        assert(out.deep_view() =~= code_ids(code@.subrange(0, i + 1)));
        i = i + 1;
    }
    assert(code@.subrange(0, code.len() as int) =~= code@);
    out
}

/// Checks the ignore list against the ids of the configured components: each
/// id must name a component, and only once. Reports the first id that fails.
pub fn validate_ignore_revisions(code: &Vec<CodeMappingConfig>, ignore_revisions: &Vec<String>) -> (r:
    Result<(), PayloadError>)
    ensures
        r is Ok <==> ignore_problem(code_ids(code@), ignore_revisions.deep_view()) is None,
        r matches Err(e) ==> ignore_problem(code_ids(code@), ignore_revisions.deep_view()) == Some(
            e@,
        ),
{
    let ids = configured_ids(code);
    let ghost ig = ignore_revisions.deep_view();
    let mut i: usize = 0;
    while i < ignore_revisions.len()
        invariant
            i <= ignore_revisions.len(),
            ig == ignore_revisions.deep_view(),
            ids.deep_view() == code_ids(code@),
            ignore_problem(ids.deep_view(), ig) == ignore_problem_from(ids.deep_view(), ig, i as int),
        decreases ignore_revisions.len() - i,
    {
        assert(ig[i as int] == ignore_revisions[i as int]@);
        if !contains_str(&ids, ignore_revisions[i].as_str()) {
            return Err(PayloadError::UnknownIgnoreId(ignore_revisions[i].clone()));
        }
        if is_repeated(ignore_revisions, i) {
            return Err(PayloadError::DuplicateIgnoreId(ignore_revisions[i].clone()));
        }
        i = i + 1;
    }
    Ok(())
}

/// The exclude patterns of the text of a `.gitignore` file: every line that is
/// neither empty nor a comment.
pub fn excludes_from_gitignore(content: &str) -> (r: Vec<String>)
    ensures
        r.deep_view() == gitignore_patterns_spec(text::lines_spec(content@)),
{
    let ls = text::lines(content);
    let mut out: Vec<String> = Vec::new();
    let mut i: usize = 0;
    while i < ls.len()
        invariant
            i <= ls.len(),
            out.deep_view() == gitignore_patterns_spec(ls.deep_view().subrange(0, i as int)),
        decreases ls.len() - i,
    {
        assert(ls.deep_view().subrange(0, i + 1).drop_last() =~= ls.deep_view().subrange(
            0,
            i as int,
        ));
        assert(ls.deep_view()[i as int] == ls[i as int]@);
        let l = ls[i].as_str();
        if l.unicode_len() > 0 && l.get_char(0) != '#' {
            let ghost before = out.deep_view();
            out.push(ls[i].clone());
            assert(out.deep_view() =~= before.push(ls[i as int]@));
        }
        i = i + 1;
    }
    assert(ls.deep_view().subrange(0, ls.len() as int) =~= ls.deep_view());
    out
}

fn append_strings(out: &mut Vec<String>, v: &Vec<String>)
    ensures
        final(out).deep_view() == old(out).deep_view() + v.deep_view(),
{
    let mut i: usize = 0;
    while i < v.len()
        invariant
            i <= v.len(),
            out.deep_view() == old(out).deep_view() + v.deep_view().subrange(0, i as int),
        decreases v.len() - i,
    {
        let ghost before = out.deep_view();
        out.push(v[i].clone());
        assert(out.deep_view() =~= before.push(v[i as int]@));
        assert(v.deep_view().subrange(0, i + 1) =~= v.deep_view().subrange(0, i as int).push(
            v[i as int]@,
        ));
        i = i + 1;
    }
    assert(v.deep_view().subrange(0, v.len() as int) =~= v.deep_view());
}

fn copy_optional_strings(o: &Option<Vec<String>>) -> (r: Vec<String>)
    ensures
        r.deep_view() == optional_strings(*o),
{
    let mut out: Vec<String> = Vec::new();
    match o {
        Some(v) => append_strings(&mut out, v),
        None => {},
    }
    assert(out.deep_view() =~= optional_strings(*o));
    out
}

fn remove_all(all: &Vec<String>, removed: &Vec<String>) -> (r: Vec<String>)
    ensures
        r.deep_view() == without(all.deep_view(), removed.deep_view()),
{
    let mut out: Vec<String> = Vec::new();
    let mut i: usize = 0;
    while i < all.len()
        invariant
            i <= all.len(),
            out.deep_view() == without(all.deep_view().subrange(0, i as int), removed.deep_view()),
        decreases all.len() - i,
    {
        assert(all.deep_view().subrange(0, i + 1).drop_last() =~= all.deep_view().subrange(
            0,
            i as int,
        ));
        assert(all.deep_view()[i as int] == all[i as int]@);
        if !contains_str(removed, all[i].as_str()) {
            let ghost before = out.deep_view();
            out.push(all[i].clone());
            assert(out.deep_view() =~= before.push(all[i as int]@));
        }
        i = i + 1;
    }
    assert(all.deep_view().subrange(0, all.len() as int) =~= all.deep_view());
    out
}

fn local_copy_excludes(l: &LocalCodeSourceConfig, config_dir: &str, patterns: &Vec<String>) -> (r:
    Vec<String>)
    ensures
        r.deep_view() == local_excludes(*l, config_dir@, patterns.deep_view()),
{
    let mut all: Vec<String> = Vec::new();
    all.push("/.git/".to_owned());
    if !l.no_config_exclude {
        let d = text::concat("/", config_dir);
        all.push(text::concat(d.as_str(), "/"));
    }
    append_strings(&mut all, patterns);
    let additions = copy_optional_strings(&l.gitignore_exclude_additions);
    append_strings(&mut all, &additions);
    let ghost everything = seq!["/.git/"@] + (if l.no_config_exclude {
        Seq::empty()
    } else {
        seq!["/"@ + config_dir@ + "/"@]
    }) + patterns.deep_view() + optional_strings(l.gitignore_exclude_additions);
    assert(all.deep_view() =~= everything);
    match &l.gitignore_exclude_subtractions {
        Some(s) => remove_all(&all, s),
        None => all,
    }
}

fn code_mapping(
    c: &CodeMappingConfig,
    ignore_revisions: &Vec<String>,
    config_dir: &str,
    patterns: &Vec<String>,
) -> (r: CodeMapping)
    ensures
        r@ == code_mapping_of(*c, ignore_revisions.deep_view(), config_dir@, patterns.deep_view()),
{
    let source = if contains_str(ignore_revisions, c.id.as_str()) {
        CodeSource::Local {
            path: c.local.path.clone(),
            copy_excludes: local_copy_excludes(&c.local, config_dir, patterns),
        }
    } else {
        CodeSource::Remote { url: c.remote.url.clone(), git_revision: c.remote.revision.clone() }
    };
    CodeMapping { id: c.id.clone(), source, target_path: c.target.clone() }
}

fn auxiliary_mapping(a: &AuxiliaryMappingConfig) -> (r: AuxiliaryMapping)
    ensures
        r@ == auxiliary_mapping_of(*a),
{
    AuxiliaryMapping {
        source_path: a.path.clone(),
        target_path: a.target.clone(),
        copy_excludes: copy_optional_strings(&a.excludes),
    }
}

fn find_absolute_target(code: &Vec<CodeMappingConfig>) -> (r: Option<usize>)
    ensures
        match r {
            Some(i) => i < code.len() && first_absolute_target_from(code@, 0) == Some(i as int),
            None => first_absolute_target_from(code@, 0) is None,
        },
{
    let mut i: usize = 0;
    while i < code.len()
        invariant
            i <= code.len(),
            first_absolute_target_from(code@, 0) == first_absolute_target_from(code@, i as int),
        decreases code.len() - i,
    {
        if path::is_absolute(code[i].target.as_str()) {
            return Some(i);
        }
        i = i + 1;
    }
    None
}

pub open spec fn code_views(m: Seq<CodeMapping>) -> Seq<CodeMappingModel> {
    m.map_values(|c: CodeMapping| c@)
}

pub open spec fn auxiliary_views(m: Seq<AuxiliaryMapping>) -> Seq<AuxiliaryMappingModel> {
    m.map_values(|a: AuxiliaryMapping| a@)
}

/// Resolves the payload of a run from the configuration `c`. Components whose
/// id is in `ignore_revisions` take the local working copy, with the patterns
/// of `gitignore` (the text of the project's `.gitignore`) left out; the
/// others take their pinned revision. The configuration directory is
/// `config_dir_override_path` or the configured one, resolved against
/// `config_base_dir`. Nothing is resolved where the ignore list, the
/// configuration directory, the entry point or a target is at fault.
pub fn build_payload_mapping(
    c: &PayloadMappingConfig,
    config_dir_override_path: Option<&str>,
    ignore_revisions: &Vec<String>,
    config_base_dir: &str,
    gitignore: &str,
) -> (r: Result<PayloadMapping, PayloadError>)
    ensures
        r is Ok <==> payload_problem(*c, ignore_revisions.deep_view()) is None,
        r matches Err(e) ==> payload_problem(*c, ignore_revisions.deep_view()) == Some(e@),
        r matches Ok(m) ==> {
            &&& code_views(m.code_mappings@) == c.code@.map_values(
                |x: CodeMappingConfig|
                    code_mapping_of(
                        x,
                        ignore_revisions.deep_view(),
                        config_dir_name(c.config.dir@),
                        gitignore_patterns_spec(text::lines_spec(gitignore@)),
                    ),
            )
            &&& text::unique_ids(code_ids(c.code@))
            &&& text::unique_ids(mapping_ids(code_views(m.code_mappings@)))
            &&& m.config_source.entrypoint_path@ == entry_in_dir(c.config.dir@, c.config.entrypoint@)
            &&& m.config_source.dir_path@ == config_dir_spec(
                opt_view(config_dir_override_path),
                config_base_dir@,
                c.config.dir@,
            )
            &&& auxiliary_views(m.auxiliary_mappings@) == auxiliary_configs(c.auxiliary).map_values(
                |a: AuxiliaryMappingConfig| auxiliary_mapping_of(a),
            )
        },
{
    match validate_ignore_revisions(&c.code, ignore_revisions) {
        Ok(()) => {},
        Err(e) => {
            return Err(e);
        },
    }
    let ids = configured_ids(&c.code);
    match find_repeated(&ids) {
        Some(i) => {
            return Err(PayloadError::DuplicateComponentId(ids[i].clone()));
        },
        None => {},
    }
    if path::is_absolute(c.config.dir.as_str()) {
        return Err(PayloadError::AbsoluteConfigDir(c.config.dir.clone()));
    }
    let dir_name = path::ensure_trimmed_trailing_slash(c.config.dir.as_str());
    proof {
        reveal_strlit(".");
    }
    if dir_name.as_str().unicode_len() == 0 || text::str_eq(dir_name.as_str(), ".") {
        return Err(PayloadError::InvalidConfigDir(c.config.dir.clone()));
    }
    if path::is_absolute(c.config.entrypoint.as_str()) {
        return Err(PayloadError::AbsoluteEntrypoint(c.config.entrypoint.clone()));
    }
    let prefix = text::concat(dir_name.as_str(), "/");
    proof {
        reveal_strlit("/");
        assert(prefix@ =~= config_dir_name(c.config.dir@).push('/'));
    }
    let entry_len = c.config.entrypoint.as_str().unicode_len();
    if !(prefix.as_str().unicode_len() < entry_len && text::starts_with(
        c.config.entrypoint.as_str(),
        prefix.as_str(),
    )) {
        return Err(PayloadError::EntrypointOutsideConfigDir(c.config.entrypoint.clone()));
    }
    let entrypoint_path = c.config.entrypoint.as_str().substring_char(
        prefix.as_str().unicode_len(),
        entry_len,
    ).to_owned();
    match find_absolute_target(&c.code) {
        Some(i) => {
            return Err(PayloadError::AbsoluteTarget(c.code[i].id.clone()));
        },
        None => {},
    }
    let dir_path = resolve_config_dir(config_dir_override_path, config_base_dir, c.config.dir.as_str());
    let patterns = excludes_from_gitignore(gitignore);
    let ghost read = gitignore_patterns_spec(text::lines_spec(gitignore@));
    let mut code_mappings: Vec<CodeMapping> = Vec::new();
    let mut i: usize = 0;
    while i < c.code.len()
        invariant
            i <= c.code.len(),
            patterns.deep_view() == read,
            code_views(code_mappings@) == c.code@.subrange(0, i as int).map_values(
                |x: CodeMappingConfig|
                    code_mapping_of(x, ignore_revisions.deep_view(), dir_name@, read),
            ),
        decreases c.code.len() - i,
    {
        let m = code_mapping(&c.code[i], ignore_revisions, dir_name.as_str(), &patterns);
        let ghost before = code_mappings@;
        code_mappings.push(m);
        assert(code_views(code_mappings@) =~= code_views(before).push(m@));
        assert(c.code@.subrange(0, i + 1).map_values(
            |x: CodeMappingConfig|
                code_mapping_of(x, ignore_revisions.deep_view(), dir_name@, read),
        ) =~= c.code@.subrange(0, i as int).map_values(
            |x: CodeMappingConfig|
                code_mapping_of(x, ignore_revisions.deep_view(), dir_name@, read),
        ).push(code_mapping_of(c.code@[i as int], ignore_revisions.deep_view(), dir_name@, read)));
        i = i + 1;
    }
    assert(c.code@.subrange(0, c.code.len() as int) =~= c.code@);
    assert(mapping_ids(code_views(code_mappings@)) =~= code_ids(c.code@));
    let mut auxiliary_mappings: Vec<AuxiliaryMapping> = Vec::new();
    match &c.auxiliary {
        Some(aux) => {
            let mut j: usize = 0;
            while j < aux.len()
                invariant
                    j <= aux.len(),
                    c.auxiliary == Some(*aux),
                    auxiliary_views(auxiliary_mappings@) == aux@.subrange(0, j as int).map_values(
                        |a: AuxiliaryMappingConfig| auxiliary_mapping_of(a),
                    ),
                decreases aux.len() - j,
            {
                let a = auxiliary_mapping(&aux[j]);
                let ghost before = auxiliary_mappings@;
                auxiliary_mappings.push(a);
                assert(auxiliary_views(auxiliary_mappings@) =~= auxiliary_views(before).push(a@));
                assert(aux@.subrange(0, j + 1).map_values(
                    |a: AuxiliaryMappingConfig| auxiliary_mapping_of(a),
                ) =~= aux@.subrange(0, j as int).map_values(
                    |a: AuxiliaryMappingConfig| auxiliary_mapping_of(a),
                ).push(auxiliary_mapping_of(aux@[j as int])));
                j = j + 1;
            }
            assert(aux@.subrange(0, aux.len() as int) =~= aux@);
        },
        None => {
            assert(auxiliary_views(auxiliary_mappings@) =~= auxiliary_configs(c.auxiliary).map_values(
                |a: AuxiliaryMappingConfig| auxiliary_mapping_of(a),
            ));
        },
    }
    Ok(
        PayloadMapping {
            code_mappings,
            config_source: ConfigSource {
                entrypoint_path,
                dir_path,
            },
            auxiliary_mappings,
        },
    )
}


pub open spec fn pair_views(v: Seq<(String, String)>) -> Seq<(Seq<char>, Seq<char>)> {
    v.map_values(|p: (String, String)| (p.0@, p.1@))
}

/// The pinned revision of each remote component, as (id, revision), in order.
pub open spec fn code_versions_spec(m: Seq<CodeMappingModel>) -> Seq<(Seq<char>, Seq<char>)>
    decreases m.len(),
{
    if m.len() == 0 {
        Seq::empty()
    } else {
        let before = code_versions_spec(m.drop_last());
        match m.last().source {
            CodeSourceModel::Remote { git_revision, .. } => before.push((m.last().id, git_revision)),
            CodeSourceModel::Local { .. } => before,
        }
    }
}

pub open spec fn mapping_ids(m: Seq<CodeMappingModel>) -> Seq<Seq<char>> {
    m.map_values(|x: CodeMappingModel| x.id)
}

pub proof fn lemma_version_keys_are_ids(m: Seq<CodeMappingModel>, k: int)
    requires
        0 <= k < code_versions_spec(m).len(),
    ensures
        mapping_ids(m).contains(code_versions_spec(m)[k].0),
    decreases m.len(),
{
    let before = code_versions_spec(m.drop_last());
    assert(mapping_ids(m.drop_last()) =~= mapping_ids(m).drop_last());
    if k < before.len() {
        lemma_version_keys_are_ids(m.drop_last(), k);
        let j = choose|j: int| 0 <= j < mapping_ids(m.drop_last()).len() && mapping_ids(m.drop_last())[j]
            == code_versions_spec(m)[k].0;
        assert(mapping_ids(m)[j] == code_versions_spec(m)[k].0);
    } else {
        assert(mapping_ids(m)[m.len() - 1] == code_versions_spec(m)[k].0);
    }
}

/// Where the components have distinct ids, so do the entries of their table
/// of revisions.
pub proof fn lemma_version_keys_unique(m: Seq<CodeMappingModel>)
    requires
        text::unique_ids(mapping_ids(m)),
    ensures
        text::unique_ids(text::pair_keys(code_versions_spec(m))),
    decreases m.len(),
{
    if m.len() > 0 {
        let rest = m.drop_last();
        assert(mapping_ids(rest) =~= mapping_ids(m).drop_last());
        lemma_version_keys_unique(rest);
        let before = code_versions_spec(rest);
        match m.last().source {
            CodeSourceModel::Remote { git_revision, .. } => {
                let v = code_versions_spec(m);
                assert(v == before.push((m.last().id, git_revision)));
                assert forall|a: int, b: int|
                    0 <= a < v.len() && 0 <= b < v.len() && a != b implies text::pair_keys(v)[a]
                        != text::pair_keys(v)[b] by {
                    if a < before.len() && b < before.len() {
                        assert(text::pair_keys(v)[a] == text::pair_keys(before)[a]);
                        assert(text::pair_keys(v)[b] == text::pair_keys(before)[b]);
                    } else {
                        let k = if a < before.len() { a } else { b };
                        lemma_version_keys_are_ids(rest, k);
                        let j = choose|j: int| 0 <= j < mapping_ids(rest).len() && mapping_ids(rest)[j]
                            == before[k].0;
                        assert(mapping_ids(m)[j] == mapping_ids(rest)[j]);
                        assert(mapping_ids(m)[m.len() - 1] == m.last().id);
                    }
                }
            },
            CodeSourceModel::Local { .. } => {},
        }
    }
}

/// The pinned revision of each remote component, as (id, revision), in the
/// order of the mappings; working copies have none.
pub fn code_versions(code_mappings: &Vec<CodeMapping>) -> (r: Vec<(String, String)>)
    ensures
        pair_views(r@) == code_versions_spec(code_views(code_mappings@)),
{
    let ghost code = code_views(code_mappings@);
    let mut out: Vec<(String, String)> = Vec::new();
    let mut i: usize = 0;
    while i < code_mappings.len()
        invariant
            i <= code_mappings.len(),
            code == code_views(code_mappings@),
            pair_views(out@) == code_versions_spec(code.subrange(0, i as int)),
        decreases code_mappings.len() - i,
    {
        assert(code.subrange(0, i + 1).drop_last() =~= code.subrange(0, i as int));
        match code_mappings[i].source.git_revision() {
            Some(revision) => {
                let ghost before = out@;
                out.push((code_mappings[i].id.clone(), revision.clone()));
                assert(pair_views(out@) =~= pair_views(before).push(
                    (code_mappings[i as int].id@, revision@),
                ));
            },
            None => {},
        }
        i = i + 1;
    }
    assert(code.subrange(0, code_mappings.len() as int) =~= code);
    out
}

/// The table of code revisions: one `id = revision` line per entry.
pub open spec fn versions_manifest_spec(v: Seq<(Seq<char>, Seq<char>)>) -> Seq<char>
    decreases v.len(),
{
    if v.len() == 0 {
        Seq::empty()
    } else {
        versions_manifest_spec(v.drop_last()) + v.last().0 + " = "@ + v.last().1 + "\n"@
    }
}

/// The text of the table of code revisions kept with a run.
pub fn versions_manifest(versions: &Vec<(String, String)>) -> (r: String)
    ensures
        r@ == versions_manifest_spec(pair_views(versions@)),
{
    let ghost v = pair_views(versions@);
    let mut out = String::new();
    let mut i: usize = 0;
    while i < versions.len()
        invariant
            i <= versions.len(),
            v == pair_views(versions@),
            out@ == versions_manifest_spec(v.subrange(0, i as int)),
        decreases versions.len() - i,
    {
        assert(v.subrange(0, i + 1).drop_last() =~= v.subrange(0, i as int));
        out.append(versions[i].0.as_str());
        out.append(" = ");
        out.append(versions[i].1.as_str());
        out.append("\n");
        i = i + 1;
    }
    assert(v.subrange(0, versions.len() as int) =~= v);
    out
}

/// What a run script's template is told of the payload: the pinned revisions
/// and where the configuration is kept.
pub struct PayloadInfo {
    pub code_revisions: Vec<(String, String)>,
    pub config_dir: String,
}

impl PayloadInfo {
    pub fn new(source: &PayloadMapping, config_dir_destination_path: &str) -> (r: PayloadInfo)
        ensures
            pair_views(r.code_revisions@) == code_versions_spec(code_views(source.code_mappings@)),
            text::unique_ids(mapping_ids(code_views(source.code_mappings@))) ==> text::unique_ids(
                text::pair_keys(pair_views(r.code_revisions@)),
            ),
            r.config_dir@ == config_dir_destination_path@,
    {
        proof {
            if text::unique_ids(mapping_ids(code_views(source.code_mappings@))) {
                lemma_version_keys_unique(code_views(source.code_mappings@));
            }
        }
        PayloadInfo {
            code_revisions: code_versions(&source.code_mappings),
            config_dir: config_dir_destination_path.to_owned(),
        }
    }
}

} // verus!
