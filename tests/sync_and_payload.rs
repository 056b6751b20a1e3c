use sparrow::cfg::{AuxiliaryMappingConfig, CodeMappingConfig, ConfigSourceConfig, LocalCodeSourceConfig, PayloadMappingConfig, RemoteCodeSourceConfig};
use sparrow::payload::{build_payload_mapping, code_versions, excludes_from_gitignore, resolve_config_dir, validate_ignore_revisions, versions_manifest, CodeSource, PayloadError};
use sparrow::sync::{sync_arguments, SyncOptions, SyncPayload};

fn s(x: &str) -> String {
    x.to_string()
}

fn component(id: &str, target: &str) -> CodeMappingConfig {
    CodeMappingConfig {
        id: s(id),
        local: LocalCodeSourceConfig {
            path: s("."),
            no_config_exclude: false,
            gitignore_exclude_additions: None,
            gitignore_exclude_subtractions: None,
        },
        remote: RemoteCodeSourceConfig { url: format!("ssh://git@example.org/{id}.git"), revision: s("v1.2") },
        target: s(target),
    }
}

fn config(code: Vec<CodeMappingConfig>) -> PayloadMappingConfig {
    PayloadMappingConfig {
        code,
        config: ConfigSourceConfig { dir: s("conf"), entrypoint: s("conf/main.yaml") },
        auxiliary: None,
    }
}

#[test]
fn sync_arguments_local_to_local_contents() {
    let options = SyncOptions::default().copy_contents().exclude(&vec![s("/.git/"), s("*.pyc")]);
    let payload = SyncPayload::LocalToLocal { sources: vec![s("/src/code/")], destination: s("/tmp/stage/code") };
    assert_eq!(
        sync_arguments(&payload, &options),
        vec!["--archive", "--checksum", "--exclude=/.git/", "--exclude=*.pyc", "/src/code//", "/tmp/stage/code"]
    );
}

#[test]
fn sync_arguments_remote_directions() {
    let options = SyncOptions::default().delete().progress().info(&vec!["progress2", "stats"]);
    let up = SyncPayload::LocalToRemote { control_path: s("/tmp/ctl"), sources: vec![s("/a/"), s("/b")], destination: s("/remote/x") };
    assert_eq!(
        sync_arguments(&up, &options),
        vec!["--archive", "--checksum", "--delete", "--progress", "--info=progress2,stats", "--rsh=ssh -S /tmp/ctl", "/a", "/b", "none:/remote/x"]
    );
    let options = SyncOptions::default().quiet().verbose().resolve_symlinks().copy_contents();
    let down = SyncPayload::RemoteToLocal { control_path: s("/tmp/ctl"), source: s("/remote/run"), destination: s("/local/run") };
    assert_eq!(
        sync_arguments(&down, &options),
        vec!["--archive", "--checksum", "--quiet", "--verbose", "--copy-links", "--rsh=ssh -S /tmp/ctl", "none:/remote/run/", "/local/run"]
    );
}

#[test]
fn ignore_list_with_unknown_id_is_rejected() {
    let code = vec![component("model", "code")];
    match validate_ignore_revisions(&code, &vec![s("model"), s("other")]) {
        Err(PayloadError::UnknownIgnoreId(id)) => assert_eq!(id, "other"),
        other => panic!("unexpected {other:?}"),
    }
    let c = config(code);
    match build_payload_mapping(&c, None, &vec![s("nope")], "/work", "") {
        Err(PayloadError::UnknownIgnoreId(id)) => assert_eq!(id, "nope"),
        _ => panic!("expected an unknown id"),
    }
}

#[test]
fn ignore_list_with_duplicate_id_is_rejected() {
    let code = vec![component("model", "code"), component("data", "data")];
    match validate_ignore_revisions(&code, &vec![s("data"), s("model"), s("data")]) {
        Err(PayloadError::DuplicateIgnoreId(id)) => assert_eq!(id, "data"),
        other => panic!("unexpected {other:?}"),
    }
    assert!(validate_ignore_revisions(&code, &vec![s("data"), s("model")]).is_ok());
}

#[test]
fn config_dir_override_resolution() {
    assert_eq!(resolve_config_dir(Some("alt/conf"), "/work", "conf"), "/work/alt/conf");
    assert_eq!(resolve_config_dir(Some("/etc/conf"), "/work", "conf"), "/etc/conf");
    assert_eq!(resolve_config_dir(None, "/work", "conf"), "/work/conf");
}

#[test]
fn absolute_paths_in_configuration_are_rejected() {
    let mut c = config(vec![component("model", "code")]);
    c.config.dir = s("/conf");
    assert!(matches!(build_payload_mapping(&c, None, &vec![], "/work", ""), Err(PayloadError::AbsoluteConfigDir(_))));
    let mut c = config(vec![component("model", "code")]);
    c.config.entrypoint = s("/conf/main.yaml");
    assert!(matches!(build_payload_mapping(&c, None, &vec![], "/work", ""), Err(PayloadError::AbsoluteEntrypoint(_))));
    let c = config(vec![component("model", "code"), component("data", "/abs")]);
    match build_payload_mapping(&c, None, &vec![], "/work", "") {
        Err(PayloadError::AbsoluteTarget(id)) => assert_eq!(id, "data"),
        _ => panic!("expected an absolute target"),
    }
}

#[test]
fn gitignore_patterns_skip_comments_and_blank_lines() {
    assert_eq!(excludes_from_gitignore("# build\ntarget/\n\n*.log\n"), vec!["target/", "*.log"]);
}

#[test]
fn payload_mapping_chooses_sources() {
    let mut model = component("model", "code");
    model.local.gitignore_exclude_additions = Some(vec![s("extra/")]);
    model.local.gitignore_exclude_subtractions = Some(vec![s("*.log")]);
    let mut c = config(vec![model, component("data", "data")]);
    c.auxiliary = Some(vec![AuxiliaryMappingConfig { path: s("/images"), target: s("images"), excludes: None }]);
    let m = build_payload_mapping(&c, None, &vec![s("model")], "/work", "target/\n*.log\n").unwrap();
    assert_eq!(m.code_mappings.len(), 2);
    match &m.code_mappings[0].source {
        CodeSource::Local { path, copy_excludes } => {
            assert_eq!(path, ".");
            assert_eq!(copy_excludes, &vec!["/.git/", "/conf/", "target/", "extra/"]);
        }
        _ => panic!("expected the working copy"),
    }
    match &m.code_mappings[1].source {
        CodeSource::Remote { url, git_revision } => {
            assert_eq!(url, "ssh://git@example.org/data.git");
            assert_eq!(git_revision, "v1.2");
        }
        _ => panic!("expected the pinned revision"),
    }
    assert_eq!(m.config_source.dir_path, "/work/conf");
    assert_eq!(m.config_source.entrypoint_path, "main.yaml");
    assert_eq!(m.auxiliary_mappings.len(), 1);
    assert_eq!(m.auxiliary_mappings[0].target_path, "images");
    assert!(m.auxiliary_mappings[0].copy_excludes.is_empty());
    let versions = code_versions(&m.code_mappings);
    assert_eq!(versions, vec![(s("data"), s("v1.2"))]);
    assert_eq!(versions_manifest(&versions), "data = v1.2\n");
}

#[test]
fn kept_config_dir_is_not_excluded() {
    let mut model = component("model", "code");
    model.local.no_config_exclude = true;
    let c = config(vec![model]);
    let m = build_payload_mapping(&c, Some("/elsewhere"), &vec![s("model")], "/work", "").unwrap();
    match &m.code_mappings[0].source {
        CodeSource::Local { copy_excludes, .. } => assert_eq!(copy_excludes, &vec!["/.git/"]),
        _ => panic!("expected the working copy"),
    }
    assert_eq!(m.config_source.dir_path, "/elsewhere");
}

#[test]
fn gitignore_lines_drop_carriage_returns() {
    assert_eq!(excludes_from_gitignore("a\r\n# c\r\nb\n"), vec!["a", "b"]);
    assert_eq!(excludes_from_gitignore("a\r"), vec!["a\r"]);
}

#[test]
fn config_dir_must_name_a_directory_below_the_project() {
    for dir in ["", ".", "./", "/"] {
        let mut c = config(vec![component("model", "code")]);
        c.config.dir = s(dir);
        let r = build_payload_mapping(&c, None, &vec![], "/work", "");
        assert!(matches!(r, Err(PayloadError::InvalidConfigDir(_)) | Err(PayloadError::AbsoluteConfigDir(_))), "{dir}");
    }
    let mut c = config(vec![component("model", "code")]);
    c.config.dir = s("conf/");
    let m = build_payload_mapping(&c, None, &vec![], "/work", "").unwrap();
    assert_eq!(m.config_source.entrypoint_path, "main.yaml");
}

#[test]
fn entrypoint_must_lie_below_the_config_dir() {
    for entry in ["main.yaml", "conf/", "confx/main.yaml", "other/conf/main.yaml"] {
        let mut c = config(vec![component("model", "code")]);
        c.config.entrypoint = s(entry);
        match build_payload_mapping(&c, None, &vec![], "/work", "") {
            Err(PayloadError::EntrypointOutsideConfigDir(e)) => assert_eq!(e, entry),
            _ => panic!("{entry} should be refused"),
        }
    }
}

#[test]
fn duplicate_component_ids_are_rejected() {
    let c = config(vec![component("model", "code"), component("model", "other")]);
    match build_payload_mapping(&c, None, &vec![], "/work", "") {
        Err(PayloadError::DuplicateComponentId(id)) => assert_eq!(id, "model"),
        _ => panic!("expected a duplicate id"),
    }
}
