use smop::script::codegen::render_script;
use smop::script::execute::{RunAction, ScriptRun, StepOutcome};
use smop::script::model::{text_less, FieldValue, Script, Step};
use smop::script::templates::{self, Template, TemplateError};
use smop::script::validate::{validate_script, ScriptError, StepKind, ValidatedScript, ValidatedStep};

fn s(x: &str) -> String {
    x.to_string()
}

fn step(name: &str, step_type: &str, fields: Vec<(&str, FieldValue)>) -> Step {
    let mut fields: Vec<(String, FieldValue)> = fields.into_iter().map(|(k, v)| (s(k), v)).collect();
    fields.sort_by(|a, b| a.0.cmp(&b.0));
    Step { name: s(name), step_type: s(step_type), fields }
}

fn text(x: &str) -> FieldValue {
    FieldValue::Str(s(x))
}

fn script(steps: Vec<Step>) -> Script {
    Script { name: s("demo"), description: Some(s("a demo")), steps }
}

fn from_toml(value: &toml::Value) -> FieldValue {
    match value {
        toml::Value::String(x) => FieldValue::Str(x.clone()),
        toml::Value::Array(items) => FieldValue::Array(items.iter().map(from_toml).collect()),
        _ => FieldValue::Other,
    }
}

fn script_from_toml(source: &str) -> Script {
    let table: toml::Table = toml::from_str(source).unwrap();
    let steps = table
        .get("step")
        .and_then(|v| v.as_array())
        .map(|steps| {
            steps
                .iter()
                .map(|st| {
                    let t = st.as_table().unwrap();
                    let mut fields = Vec::new();
                    for (k, v) in t {
                        if k != "name" && k != "type" {
                            fields.push((k.clone(), from_toml(v)));
                        }
                    }
                    Step {
                        name: t["name"].as_str().unwrap().to_string(),
                        step_type: t["type"].as_str().unwrap().to_string(),
                        fields,
                    }
                })
                .collect()
        })
        .unwrap_or_default();
    Script {
        name: table["name"].as_str().unwrap().to_string(),
        description: table.get("description").and_then(|d| d.as_str()).map(String::from),
        steps,
    }
}

#[test]
fn validate_accepts_known_steps_in_order() {
    let sc = script(vec![
        step("check-env", "env.require", vec![("vars", FieldValue::Array(vec![text("A"), text("B")]))]),
        step("prepare", "fs.mkdir_all", vec![("path", text("build"))]),
        step("copy", "fs.copy", vec![("from", text("a")), ("to", text("b"))]),
        step("shell", "sh.run", vec![("command", text("echo hi"))]),
    ]);
    let v = validate_script(&sc).unwrap();
    assert_eq!(v.name, "demo");
    assert_eq!(v.description, Some(s("a demo")));
    assert_eq!(
        v.steps,
        vec![
            ValidatedStep { name: s("check-env"), kind: StepKind::EnvRequire { vars: vec![s("A"), s("B")] } },
            ValidatedStep { name: s("prepare"), kind: StepKind::FsMkdirAll { path: s("build") } },
            ValidatedStep { name: s("copy"), kind: StepKind::FsCopy { from: s("a"), to: s("b") } },
            ValidatedStep { name: s("shell"), kind: StepKind::ShRun { command: s("echo hi") } },
        ]
    );
}

#[test]
fn validate_maps_every_step_type() {
    let two = |t: &str, a: &str, b: &str| step(t, t, vec![(a, text("x")), (b, text("y"))]);
    let sc = script(vec![
        two("fs.write_string", "path", "content"),
        two("fs.append", "path", "content"),
        two("fs.rename", "from", "to"),
        step("fs.remove", "fs.remove", vec![("path", text("x"))]),
        two("http.download", "url", "path"),
        two("http.get", "url", "dest"),
        two("archive.create_zip", "source", "dest"),
        two("archive.create_tar", "source", "dest"),
        two("archive.create_tar_gz", "source", "dest"),
        two("archive.extract_zip", "archive", "dest"),
        two("archive.extract_tar", "archive", "dest"),
        two("archive.extract_tar_gz", "archive", "dest"),
    ]);
    let v = validate_script(&sc).unwrap();
    let kinds: Vec<StepKind> = v.steps.into_iter().map(|st| st.kind).collect();
    assert_eq!(kinds[0], StepKind::FsWriteString { path: s("x"), content: s("y") });
    assert_eq!(kinds[1], StepKind::FsAppend { path: s("x"), content: s("y") });
    assert_eq!(kinds[2], StepKind::FsRename { from: s("x"), to: s("y") });
    assert_eq!(kinds[3], StepKind::FsRemove { path: s("x") });
    assert_eq!(kinds[4], StepKind::HttpDownload { url: s("x"), path: s("y") });
    assert_eq!(kinds[5], StepKind::HttpGet { url: s("x"), dest: s("y") });
    assert_eq!(kinds[6], StepKind::ArchiveCreateZip { source: s("x"), dest: s("y") });
    assert_eq!(kinds[7], StepKind::ArchiveCreateTar { source: s("x"), dest: s("y") });
    assert_eq!(kinds[8], StepKind::ArchiveCreateTarGz { source: s("x"), dest: s("y") });
    assert_eq!(kinds[9], StepKind::ArchiveExtractZip { archive: s("x"), dest: s("y") });
    assert_eq!(kinds[10], StepKind::ArchiveExtractTar { archive: s("x"), dest: s("y") });
    assert_eq!(kinds[11], StepKind::ArchiveExtractTarGz { archive: s("x"), dest: s("y") });
}

#[test]
fn validate_rejects_duplicate_step_names() {
    let sc = script(vec![
        step("same", "fs.mkdir_all", vec![("path", text("a"))]),
        step("same", "fs.mkdir_all", vec![("path", text("b"))]),
    ]);
    let err = validate_script(&sc).unwrap_err();
    assert_eq!(err, ScriptError::DuplicateStepName { name: s("same") });
    assert_eq!(err.message(), "Duplicate step name: same");
}

#[test]
fn validate_rejects_unknown_step_type() {
    let sc = script(vec![step("x", "fs.teleport", vec![])]);
    let err = validate_script(&sc).unwrap_err();
    assert_eq!(err, ScriptError::UnknownStepType { step_type: s("fs.teleport") });
    assert_eq!(err.message(), "Unknown step type: fs.teleport");
}

#[test]
fn validate_rejects_unknown_field() {
    let sc = script(vec![step("mk", "fs.mkdir_all", vec![("path", text("a")), ("mode", text("755"))])]);
    let err = validate_script(&sc).unwrap_err();
    assert_eq!(
        err,
        ScriptError::UnknownField { step: s("mk"), step_type: s("fs.mkdir_all"), field: s("mode") }
    );
    assert_eq!(err.message(), "Step 'mk' (fs.mkdir_all) has unknown field 'mode'");
}

#[test]
fn validate_rejects_missing_field() {
    let sc = script(vec![step("w", "fs.write_string", vec![("path", text("a"))])]);
    let err = validate_script(&sc).unwrap_err();
    assert_eq!(
        err,
        ScriptError::MissingField { step: s("w"), step_type: s("fs.write_string"), field: s("content") }
    );
    assert_eq!(err.message(), "Step 'w' (fs.write_string) is missing required field 'content'");
}

#[test]
fn validate_rejects_non_string_field_as_missing() {
    let sc = script(vec![step("w", "sh.run", vec![("command", FieldValue::Other)])]);
    let err = validate_script(&sc).unwrap_err();
    assert_eq!(err, ScriptError::MissingField { step: s("w"), step_type: s("sh.run"), field: s("command") });
}

#[test]
fn validate_rejects_list_with_non_string() {
    let sc = script(vec![step(
        "env",
        "env.require",
        vec![("vars", FieldValue::Array(vec![text("A"), FieldValue::Other]))],
    )]);
    let err = validate_script(&sc).unwrap_err();
    assert_eq!(err, ScriptError::NotStringList { step: s("env"), step_type: s("env.require"), field: s("vars") });
    assert_eq!(err.message(), "Step 'env' (env.require) field 'vars' must be a list of strings");
}

#[test]
fn validate_reports_first_failing_step() {
    let sc = script(vec![
        step("ok", "fs.remove", vec![("path", text("a"))]),
        step("bad", "nope", vec![]),
        step("ok", "fs.remove", vec![("path", text("a"))]),
    ]);
    assert_eq!(validate_script(&sc).unwrap_err(), ScriptError::UnknownStepType { step_type: s("nope") });
}

#[test]
fn validate_accepts_empty_script() {
    let sc = Script { name: s("empty"), description: None, steps: vec![] };
    let v = validate_script(&sc).unwrap();
    assert_eq!(v, ValidatedScript { name: s("empty"), description: None, steps: vec![] });
}

#[test]
fn codegen_renders_commented_blocks() {
    let v = ValidatedScript {
        name: s("backup"),
        description: None,
        steps: vec![
            ValidatedStep { name: s("check-env"), kind: StepKind::EnvRequire { vars: vec![s("BACKUP_ROOT"), s("X")] } },
            ValidatedStep { name: s("prepare\nsecond line"), kind: StepKind::FsMkdirAll { path: s("build") } },
            ValidatedStep {
                name: s("write"),
                kind: StepKind::FsWriteString { path: s("build/m.txt"), content: s("start\n") },
            },
            ValidatedStep { name: s("fetch"), kind: StepKind::HttpGet { url: s("https://x/y"), dest: s("out.json") } },
            ValidatedStep { name: s(""), kind: StepKind::ShRun { command: s("echo \"hi\"") } },
        ],
    };
    let expected = [
        "use smop::prelude::*;\n\n",
        "fn main() -> Result<()> {\n",
        "    // Step: check-env\n",
        "    env::require_vars(&[\"BACKUP_ROOT\", \"X\"])?;\n",
        "\n",
        "    // Step: prepare\n",
        "    // second line\n",
        "    std::fs::create_dir_all(\"build\")\n",
        "        .context(\"Failed to create build directory\")?;\n",
        "\n",
        "    // Step: write\n",
        "    fs::write_string(\"build/m.txt\", \"start\\n\")?;\n",
        "\n",
        "    // Step: fetch\n",
        "    let body = http::get(\"https://x/y\")?;\n",
        "    fs::write_string(\"out.json\", body)?;\n",
        "\n",
        "    // Step:\n",
        "    sh::run(\"echo \\\"hi\\\"\")?;\n",
        "\n",
        "    Ok(())\n",
        "}\n",
    ]
    .concat();
    assert_eq!(render_script(&v), expected);
}

#[test]
fn codegen_renders_archive_and_file_steps() {
    let v = ValidatedScript {
        name: s("x"),
        description: None,
        steps: vec![
            ValidatedStep { name: s("a"), kind: StepKind::ArchiveCreateTarGz { source: s("src"), dest: s("o.tgz") } },
            ValidatedStep { name: s("b"), kind: StepKind::ArchiveExtractZip { archive: s("a.zip"), dest: s("d") } },
            ValidatedStep { name: s("c"), kind: StepKind::FsRename { from: s("p"), to: s("q") } },
            ValidatedStep { name: s("d"), kind: StepKind::HttpDownload { url: s("u"), path: s("f") } },
            ValidatedStep { name: s("e"), kind: StepKind::EnvRequire { vars: vec![] } },
        ],
    };
    let out = render_script(&v);
    assert!(out.contains("    archive::create_tar_gz(\"src\", \"o.tgz\")?;\n"));
    assert!(out.contains("    archive::extract_zip(\"a.zip\", \"d\")?;\n"));
    assert!(out.contains("    fs::rename(\"p\", \"q\")?;\n"));
    assert!(out.contains("    http::download(\"u\", \"f\")?;\n"));
    assert!(out.contains("    env::require_vars(&[])?;\n"));
}

#[test]
fn codegen_renders_empty_script() {
    let v = ValidatedScript { name: s("x"), description: None, steps: vec![] };
    assert_eq!(render_script(&v), "use smop::prelude::*;\n\nfn main() -> Result<()> {\n    Ok(())\n}\n");
}

#[test]
fn template_parse_selects_by_name() {
    assert_eq!(Template::parse("backup"), Ok(Template::Backup));
    assert_eq!(Template::parse("http-fetch"), Ok(Template::HttpFetch));
    assert_eq!(Template::parse("file-pipeline"), Ok(Template::FilePipeline));
    let err = Template::parse("Backup").unwrap_err();
    assert_eq!(err, TemplateError::UnknownTemplate { name: s("Backup") });
    assert_eq!(err.message(), "Unknown template: Backup");
}

#[test]
fn template_texts_match_each_template() {
    assert!(templates::render_script(Template::Backup).starts_with("name = \"backup-project\""));
    assert!(templates::render_script(Template::HttpFetch).contains("type = \"http.get\""));
    assert!(templates::render_script(Template::FilePipeline).contains("hello from smop"));
    assert!(templates::render_readme(Template::Backup).starts_with("# backup"));
    assert!(templates::render_readme(Template::HttpFetch).starts_with("# http-fetch"));
    assert!(templates::render_readme(Template::FilePipeline).starts_with("# file-pipeline"));
}

#[test]
fn template_scripts_validate_cleanly() {
    for t in [Template::Backup, Template::HttpFetch, Template::FilePipeline] {
        let sc = script_from_toml(templates::render_script(t));
        let v = validate_script(&sc).expect("template validates");
        assert!(!v.steps.is_empty());
    }
    let backup = validate_script(&script_from_toml(templates::render_script(Template::Backup))).unwrap();
    assert_eq!(backup.steps[0].kind, StepKind::EnvRequire { vars: vec![s("BACKUP_ROOT")] });
    assert_eq!(backup.steps[2].kind, StepKind::FsWriteString { path: s("build/manifest.txt"), content: s("backup starting\n") });
    assert_eq!(backup.steps[3].kind, StepKind::ArchiveCreateTarGz { source: s("src"), dest: s("build/source.tar.gz") });
}

#[test]
fn readme_opens_with_its_template_name() {
    for n in ["backup", "http-fetch", "file-pipeline"] {
        let template = Template::parse(n).unwrap();
        assert!(templates::render_readme(template).starts_with(&format!("# {n}\n")));
    }
}

fn validated(names: &[&str]) -> ValidatedScript {
    ValidatedScript {
        name: s("run"),
        description: None,
        steps: names
            .iter()
            .map(|n| ValidatedStep { name: s(n), kind: StepKind::FsRemove { path: s("x") } })
            .collect(),
    }
}

#[test]
fn run_announces_steps_in_order_and_succeeds() {
    let v = validated(&["first", "second"]);
    let (mut run, action) = ScriptRun::start(&v);
    assert_eq!(action, RunAction::RunStep { index: 0, announce: s("Running step 1/2: first") });
    let action = run.advance(StepOutcome::Succeeded);
    assert_eq!(action, RunAction::RunStep { index: 1, announce: s("Running step 2/2: second") });
    assert_eq!(run.advance(StepOutcome::Succeeded), RunAction::Succeed);
}

#[test]
fn run_stops_at_first_failure() {
    let v = validated(&["a", "b", "c"]);
    let (mut run, _) = ScriptRun::start(&v);
    assert!(!run.is_finished());
    assert!(matches!(run.advance(StepOutcome::Succeeded), RunAction::RunStep { index: 1, .. }));
    assert_eq!(run.advance(StepOutcome::Failed), RunAction::Fail { index: 1, context: s("Step 'b' failed") });
    assert!(run.is_finished());
}

#[test]
fn run_of_empty_script_succeeds_at_once() {
    let (run, action) = ScriptRun::start(&validated(&[]));
    assert_eq!(action, RunAction::Succeed);
    assert!(run.is_finished());
}

#[test]
fn run_counts_past_nine_steps() {
    let names: Vec<String> = (0..12).map(|i| format!("s{i}")).collect();
    let refs: Vec<&str> = names.iter().map(String::as_str).collect();
    let (mut run, _) = ScriptRun::start(&validated(&refs));
    let mut last = RunAction::Succeed;
    for _ in 0..10 {
        last = run.advance(StepOutcome::Succeeded);
    }
    assert_eq!(last, RunAction::RunStep { index: 10, announce: s("Running step 11/12: s10") });
}

#[test]
fn codegen_renders_design_example() {
    let v = ValidatedScript {
        name: s("backup-project"),
        description: None,
        steps: vec![
            ValidatedStep { name: s("check-env"), kind: StepKind::EnvRequire { vars: vec![s("BACKUP_ROOT")] } },
            ValidatedStep { name: s("prepare-output-dir"), kind: StepKind::FsMkdirAll { path: s("build") } },
            ValidatedStep {
                name: s("write-manifest"),
                kind: StepKind::FsWriteString { path: s("build/manifest.txt"), content: s("backup starting\n") },
            },
            ValidatedStep {
                name: s("archive-source"),
                kind: StepKind::ArchiveCreateTarGz { source: s("src"), dest: s("build/source.tar.gz") },
            },
            ValidatedStep {
                name: s("upload-copy"),
                kind: StepKind::ShRun { command: s("aws s3 cp build/source.tar.gz s3://my-bucket/source.tar.gz") },
            },
        ],
    };
    let expected = r#"use smop::prelude::*;

fn main() -> Result<()> {
    // Step: check-env
    env::require_vars(&["BACKUP_ROOT"])?;

    // Step: prepare-output-dir
    std::fs::create_dir_all("build")
        .context("Failed to create build directory")?;

    // Step: write-manifest
    fs::write_string("build/manifest.txt", "backup starting\n")?;

    // Step: archive-source
    archive::create_tar_gz("src", "build/source.tar.gz")?;

    // Step: upload-copy
    sh::run("aws s3 cp build/source.tar.gz s3://my-bucket/source.tar.gz")?;

    Ok(())
}
"#;
    assert_eq!(render_script(&v), expected);
}

#[test]
fn step_new_admits_only_ascending_fields() {
    let ok = Step::new(s("a"), s("fs.copy"), vec![(s("from"), text("x")), (s("to"), text("y"))]).unwrap();
    assert_eq!(ok.fields.len(), 2);
    assert!(Step::new(s("a"), s("fs.copy"), vec![(s("to"), text("y")), (s("from"), text("x"))]).is_none());
    assert!(Step::new(s("a"), s("fs.copy"), vec![(s("to"), text("y")), (s("to"), text("x"))]).is_none());
    assert!(Step::new(s("a"), s("sh.run"), vec![]).is_some());
}

#[test]
fn text_less_agrees_with_string_order() {
    let words = ["", "a", "ab", "b", "B", "é", "z", "aa", "path", "paths", "content"];
    for a in words {
        for b in words {
            assert_eq!(text_less(a, b), a < b, "{a:?} < {b:?}");
        }
    }
}
