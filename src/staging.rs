//! Materialising a run directory: the steps that fill a fresh staging
//! directory with the code, the auxiliary directories and the run script.
//! Each step writes below the staging directory, never outside it.
use crate::path;
use crate::text;
use crate::payload::{AuxiliaryMapping, AuxiliaryMappingModel, CodeMapping, CodeMappingModel, CodeSource, CodeSourceModel, auxiliary_views, code_views};
use vstd::prelude::*;

verus! {

/// The name of the run script in the run directory.
pub const RUN_SCRIPT_NAME: &'static str = "run.sh";

/// One step of filling the staging directory.
pub enum MaterializationStep {
    /// Copy what the directory `source` holds into `destination`, leaving out
    /// the patterns `excludes`.
    CopyDirectory { source: String, destination: String, excludes: Vec<String> },
    /// Check out revision `git_revision` of the repository at `url` into
    /// `destination`, submodules included.
    UnpackRevision { url: String, git_revision: String, destination: String },
    /// Copy the file `source` to `destination`.
    CopyFile { source: String, destination: String },
}

pub enum StepModel {
    CopyDirectory { source: Seq<char>, destination: Seq<char>, excludes: Seq<Seq<char>> },
    UnpackRevision { url: Seq<char>, git_revision: Seq<char>, destination: Seq<char> },
    CopyFile { source: Seq<char>, destination: Seq<char> },
}

impl View for MaterializationStep {
    type V = StepModel;

    open spec fn view(&self) -> StepModel {
        match self {
            MaterializationStep::CopyDirectory { source, destination, excludes } =>
                StepModel::CopyDirectory {
                source: source@,
                destination: destination@,
                excludes: excludes.deep_view(),
            },
            MaterializationStep::UnpackRevision { url, git_revision, destination } =>
                StepModel::UnpackRevision {
                url: url@,
                git_revision: git_revision@,
                destination: destination@,
            },
            MaterializationStep::CopyFile { source, destination } => StepModel::CopyFile {
                source: source@,
                destination: destination@,
            },
        }
    }
}

pub open spec fn step_destination(s: StepModel) -> Seq<char> {
    match s {
        StepModel::CopyDirectory { destination, .. } => destination,
        StepModel::UnpackRevision { destination, .. } => destination,
        StepModel::CopyFile { destination, .. } => destination,
    }
}

/// Why a run directory could not be planned.
#[derive(Debug)]
pub enum PrepareError {
    /// This target is absolute or has a `..` component: it could lead out of
    /// the run directory.
    UnsafeTarget(String),
}

/// A target that stays below the directory it is joined to.
pub open spec fn safe_target(t: Seq<char>) -> bool {
    !path::is_absolute_spec(t) && !path::has_parent_component(t)
}

pub open spec fn code_step_spec(staging: Seq<char>, m: CodeMappingModel) -> StepModel {
    match m.source {
        CodeSourceModel::Local { path, copy_excludes } => StepModel::CopyDirectory {
            source: path,
            destination: path::join_spec(staging, m.target_path),
            excludes: copy_excludes,
        },
        CodeSourceModel::Remote { url, git_revision } => StepModel::UnpackRevision {
            url,
            git_revision,
            destination: path::join_spec(staging, m.target_path),
        },
    }
}

pub open spec fn auxiliary_step_spec(staging: Seq<char>, a: AuxiliaryMappingModel) -> StepModel {
    StepModel::CopyDirectory {
        source: a.source_path,
        destination: path::join_spec(staging, a.target_path),
        excludes: a.copy_excludes,
    }
}

/// The steps, in order: each code component, each auxiliary directory, then
/// the run script.
pub open spec fn plan_spec(
    staging: Seq<char>,
    code: Seq<CodeMappingModel>,
    aux: Seq<AuxiliaryMappingModel>,
    script: Seq<char>,
) -> Seq<StepModel> {
    code.map_values(|m: CodeMappingModel| code_step_spec(staging, m)) + aux.map_values(
        |a: AuxiliaryMappingModel| auxiliary_step_spec(staging, a),
    ) + seq![StepModel::CopyFile { source: script, destination: path::join_spec(staging, RUN_SCRIPT_NAME@) }]
}

/// Every target of the mappings stays below the staging directory.
pub open spec fn targets_safe(code: Seq<CodeMappingModel>, aux: Seq<AuxiliaryMappingModel>) -> bool {
    &&& forall|i: int| 0 <= i < code.len() ==> safe_target(#[trigger] code[i].target_path)
    &&& forall|j: int| 0 <= j < aux.len() ==> safe_target(#[trigger] aux[j].target_path)
}

pub open spec fn step_views(s: Seq<MaterializationStep>) -> Seq<StepModel> {
    s.map_values(|x: MaterializationStep| x@)
}

fn is_safe_target(t: &str) -> (r: bool)
    ensures
        r == safe_target(t@),
{
    !path::is_absolute(t) && !path::contains_parent_component(t)
}

/// The step that materialises one code component below `staging_dir`.
pub fn prepare_code(code_mapping: &CodeMapping, staging_dir: &str) -> (r: Result<
    MaterializationStep,
    PrepareError,
>)
    ensures
        r is Ok <==> safe_target(code_mapping.target_path@),
        r matches Ok(s) ==> s@ == code_step_spec(staging_dir@, code_mapping@),
        r matches Err(PrepareError::UnsafeTarget(t)) ==> t@ == code_mapping.target_path@,
{
    if !is_safe_target(code_mapping.target_path.as_str()) {
        return Err(PrepareError::UnsafeTarget(code_mapping.target_path.clone()));
    }
    let destination = path::join(staging_dir, code_mapping.target_path.as_str());
    match &code_mapping.source {
        CodeSource::Local { path, copy_excludes } => Ok(
            MaterializationStep::CopyDirectory {
                source: path.clone(),
                destination,
                excludes: text::copy_strings(copy_excludes),
            },
        ),
        CodeSource::Remote { url, git_revision } => Ok(
            MaterializationStep::UnpackRevision {
                url: url.clone(),
                git_revision: git_revision.clone(),
                destination,
            },
        ),
    }
}

fn prepare_auxiliary(a: &AuxiliaryMapping, staging_dir: &str) -> (r: Result<
    MaterializationStep,
    PrepareError,
>)
    ensures
        r is Ok <==> safe_target(a.target_path@),
        r matches Ok(s) ==> s@ == auxiliary_step_spec(staging_dir@, a@),
        r matches Err(PrepareError::UnsafeTarget(t)) ==> t@ == a.target_path@,
{
    if !is_safe_target(a.target_path.as_str()) {
        return Err(PrepareError::UnsafeTarget(a.target_path.clone()));
    }
    Ok(
        MaterializationStep::CopyDirectory {
            source: a.source_path.clone(),
            destination: path::join(staging_dir, a.target_path.as_str()),
            excludes: text::copy_strings(&a.copy_excludes),
        },
    )
}

/// The steps that fill the staging directory `staging_dir` for a run: each
/// code component (a copy of the working tree, or a checkout of the pinned
/// revision), each auxiliary directory, and the run script at
/// `run_script_path`, copied to `run.sh`. Where a target could lead outside
/// the staging directory nothing is planned.
pub fn plan_run_directory(
    staging_dir: &str,
    code_mappings: &Vec<CodeMapping>,
    auxiliary_mappings: &Vec<AuxiliaryMapping>,
    run_script_path: &str,
) -> (r: Result<Vec<MaterializationStep>, PrepareError>)
    ensures
        r is Ok <==> targets_safe(code_views(code_mappings@), auxiliary_views(auxiliary_mappings@)),
        r matches Ok(steps) ==> step_views(steps@) == plan_spec(
            staging_dir@,
            code_views(code_mappings@),
            auxiliary_views(auxiliary_mappings@),
            run_script_path@,
        ),
        r matches Err(PrepareError::UnsafeTarget(t)) ==> !safe_target(t@),
{
    let ghost code = code_views(code_mappings@);
    let ghost aux = auxiliary_views(auxiliary_mappings@);
    let mut steps: Vec<MaterializationStep> = Vec::new();
    let mut i: usize = 0;
    while i < code_mappings.len()
        invariant
            i <= code_mappings.len(),
            code == code_views(code_mappings@),
            forall|k: int| 0 <= k < i ==> safe_target(#[trigger] code[k].target_path),
            step_views(steps@) == code.subrange(0, i as int).map_values(
                |m: CodeMappingModel| code_step_spec(staging_dir@, m),
            ),
        decreases code_mappings.len() - i,
    {
        match prepare_code(&code_mappings[i], staging_dir) {
            Ok(s) => {
                let ghost before = steps@;
                steps.push(s);
                assert(step_views(steps@) =~= step_views(before).push(s@));
                assert(code.subrange(0, i + 1).map_values(
                    |m: CodeMappingModel| code_step_spec(staging_dir@, m),
                ) =~= code.subrange(0, i as int).map_values(
                    |m: CodeMappingModel| code_step_spec(staging_dir@, m),
                ).push(code_step_spec(staging_dir@, code[i as int])));
            },
            Err(e) => {
                assert(!safe_target(code[i as int].target_path));
                return Err(e);
            },
        }
        i = i + 1;
    }
    assert(code.subrange(0, code_mappings.len() as int) =~= code);
    let ghost after_code = step_views(steps@);
    let mut j: usize = 0;
    while j < auxiliary_mappings.len()
        invariant
            j <= auxiliary_mappings.len(),
            aux == auxiliary_views(auxiliary_mappings@),
            forall|k: int| 0 <= k < j ==> safe_target(#[trigger] aux[k].target_path),
            step_views(steps@) == after_code + aux.subrange(0, j as int).map_values(
                |a: AuxiliaryMappingModel| auxiliary_step_spec(staging_dir@, a),
            ),
        decreases auxiliary_mappings.len() - j,
    {
        match prepare_auxiliary(&auxiliary_mappings[j], staging_dir) {
            Ok(s) => {
                let ghost before = steps@;
                steps.push(s);
                assert(step_views(steps@) =~= step_views(before).push(s@));
                assert(aux.subrange(0, j + 1).map_values(
                    |a: AuxiliaryMappingModel| auxiliary_step_spec(staging_dir@, a),
                ) =~= aux.subrange(0, j as int).map_values(
                    |a: AuxiliaryMappingModel| auxiliary_step_spec(staging_dir@, a),
                ).push(auxiliary_step_spec(staging_dir@, aux[j as int])));
            },
            Err(e) => {
                assert(!safe_target(aux[j as int].target_path));
                return Err(e);
            },
        }
        j = j + 1;
    }
    assert(aux.subrange(0, auxiliary_mappings.len() as int) =~= aux);
    let s = MaterializationStep::CopyFile {
        source: run_script_path.to_owned(),
        destination: path::join(staging_dir, RUN_SCRIPT_NAME),
    };
    let ghost before = steps@;
    steps.push(s);
    assert(step_views(steps@) =~= step_views(before).push(s@));
    assert(step_views(steps@) =~= plan_spec(staging_dir@, code, aux, run_script_path@));
    Ok(steps)
}

/// Run directories stay in their staging directory: where every target is
/// relative and has no `..` component, each step of the plan writes to the
/// staging directory or below it, with no way out through `..`.
pub proof fn law_plan_stays_in_staging(
    staging: Seq<char>,
    code: Seq<CodeMappingModel>,
    aux: Seq<AuxiliaryMappingModel>,
    script: Seq<char>,
    k: int,
)
    requires
        targets_safe(code, aux),
        0 <= k < plan_spec(staging, code, aux, script).len(),
    ensures
        path::lexically_within(staging, step_destination(plan_spec(staging, code, aux, script)[k])),
{
    let plan = plan_spec(staging, code, aux, script);
    let n = code.len() as int;
    let m = aux.len() as int;
    if k < n {
        let t = code[k].target_path;
        assert(safe_target(t));
        assert(plan[k] == code_step_spec(staging, code[k]));
        assert(step_destination(plan[k]) == path::join_spec(staging, t));
    } else if k < n + m {
        let t = aux[k - n].target_path;
        assert(safe_target(t));
        assert(plan[k] == auxiliary_step_spec(staging, aux[k - n]));
        assert(step_destination(plan[k]) == path::join_spec(staging, t));
    } else {
        reveal_strlit("run.sh");
        let t = RUN_SCRIPT_NAME@;
        assert(!path::is_absolute_spec(t));
        assert forall|i: int| !path::parent_component_at(t, i) by {
            if 0 <= i && i + 2 <= t.len() && t[i] == '.' {
                assert(i == 3);
                assert(t[i + 1] == 's');
            }
        }
        assert(plan[k] == StepModel::CopyFile { source: script, destination: path::join_spec(staging, t) });
        assert(step_destination(plan[k]) == path::join_spec(staging, t));
    }
}

} // verus!
