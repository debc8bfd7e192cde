//! Built-in script templates.
use vstd::prelude::*;
use vstd::string::StringExecFns;

use crate::text::str_eq;

verus! {

/// A built-in script template.
#[derive(Debug, Clone, Copy, PartialEq, Eq)]
pub enum Template {
    Backup,
    HttpFetch,
    FilePipeline,
}

/// Why a template name was refused.
#[derive(Debug, Clone, PartialEq, Eq)]
pub enum TemplateError {
    UnknownTemplate { name: String },
}

impl TemplateError {
    /// The text that describes this refusal.
    pub fn message(&self) -> (r: String)
        ensures
            r@ == (match self {
                TemplateError::UnknownTemplate { name } => "Unknown template: "@ + name@,
            }),
    {
        let mut m = String::new();
        match self {
            TemplateError::UnknownTemplate { name } => {
                m.append("Unknown template: ");
                m.append(name.as_str());
            },
        }
        m
    }
}

/// The template that a name selects, if any.
pub open spec fn spec_template_named(name: Seq<char>) -> Option<Template> {
    if name == "backup"@ {
        Some(Template::Backup)
    } else if name == "http-fetch"@ {
        Some(Template::HttpFetch)
    } else if name == "file-pipeline"@ {
        Some(Template::FilePipeline)
    } else {
        None
    }
}

impl Template {
    /// Selects a template by name: "backup", "http-fetch" or "file-pipeline".
    pub fn parse(name: &str) -> (r: Result<Template, TemplateError>)
        ensures
            match spec_template_named(name@) {
                Some(t) => r == Ok::<Template, TemplateError>(t),
                None => r matches Err(TemplateError::UnknownTemplate { name: n }) && n@ == name@,
            },
    {
        if str_eq(name, "backup") {
            Ok(Template::Backup)
        } else if str_eq(name, "http-fetch") {
            Ok(Template::HttpFetch)
        } else if str_eq(name, "file-pipeline") {
            Ok(Template::FilePipeline)
        } else {
            Err(TemplateError::UnknownTemplate { name: name.to_owned() })
        }
    }
}

/// The `script.toml` of the backup template.
pub const BACKUP_SCRIPT: &'static str = r#"name = "backup-project"
description = "Backup the current project into build artifacts"

[[step]]
name = "check-env"
type = "env.require"
vars = ["BACKUP_ROOT"]

[[step]]
name = "prepare-output"
type = "fs.mkdir_all"
path = "build"

[[step]]
name = "write-manifest"
type = "fs.write_string"
path = "build/manifest.txt"
content = "backup starting\n"

[[step]]
name = "archive-source"
type = "archive.create_tar_gz"
source = "src"
dest = "build/source.tar.gz"
"#;

/// The README of the backup template.
pub const BACKUP_README: &'static str = r#"# backup

This template creates a simple backup manifest and archive pipeline.

Run:

```bash
smop validate script.toml
```
"#;

/// The `script.toml` of the http-fetch template.
pub const HTTP_FETCH_SCRIPT: &'static str = r#"name = "http-fetch"
description = "Fetch JSON from an API and store it locally"

[[step]]
name = "prepare-output"
type = "fs.mkdir_all"
path = "build"

[[step]]
name = "fetch-data"
type = "http.get"
url = "https://httpbin.org/json"
dest = "build/response.json"
"#;

/// The README of the http-fetch template.
pub const HTTP_FETCH_README: &'static str = r#"# http-fetch

This template fetches a JSON document and stores it on disk.
"#;

/// The `script.toml` of the file-pipeline template.
pub const FILE_PIPELINE_SCRIPT: &'static str = r#"name = "file-pipeline"
description = "Read, copy, and transform files locally"

[[step]]
name = "prepare-output"
type = "fs.mkdir_all"
path = "build"

[[step]]
name = "write-message"
type = "fs.write_string"
path = "build/message.txt"
content = "hello from smop\n"
"#;

/// The README of the file-pipeline template.
pub const FILE_PIPELINE_README: &'static str = r#"# file-pipeline

This template demonstrates local filesystem work without network access.
"#;

/// The `script.toml` text of a template.
pub fn render_script(template: Template) -> (r: &'static str)
    ensures
        r@ == (match template {
            Template::Backup => BACKUP_SCRIPT@,
            Template::HttpFetch => HTTP_FETCH_SCRIPT@,
            Template::FilePipeline => FILE_PIPELINE_SCRIPT@,
        }),
{
    match template {
        Template::Backup => BACKUP_SCRIPT,
        Template::HttpFetch => HTTP_FETCH_SCRIPT,
        Template::FilePipeline => FILE_PIPELINE_SCRIPT,
    }
}

/// The name that selects a template.
pub open spec fn template_name(template: Template) -> Seq<char> {
    match template {
        Template::Backup => "backup"@,
        Template::HttpFetch => "http-fetch"@,
        Template::FilePipeline => "file-pipeline"@,
    }
}

/// The heading line that opens a template's README: `# ` and its name.
pub open spec fn readme_heading(template: Template) -> Seq<char> {
    "# "@ + template_name(template) + "\n"@
}

/// The README text of a template; it opens with a heading that names the
/// template, and the name selects that template again.
pub fn render_readme(template: Template) -> (r: &'static str)
    ensures
        r@ == (match template {
            Template::Backup => BACKUP_README@,
            Template::HttpFetch => HTTP_FETCH_README@,
            Template::FilePipeline => FILE_PIPELINE_README@,
        }),
        r@.len() >= readme_heading(template).len(),
        r@.take(readme_heading(template).len() as int) == readme_heading(template),
        spec_template_named(template_name(template)) == Some(template),
{
    proof {
        reveal_strlit("backup");
        reveal_strlit("http-fetch");
        reveal_strlit("file-pipeline");
        reveal_strlit("# ");
        reveal_strlit("\n");
        reveal_strlit(r#"# backup

This template creates a simple backup manifest and archive pipeline.

Run:

```bash
smop validate script.toml
```
"#);
        reveal_strlit(r#"# http-fetch

This template fetches a JSON document and stores it on disk.
"#);
        reveal_strlit(r#"# file-pipeline

This template demonstrates local filesystem work without network access.
"#);
        assert(readme_heading(Template::Backup) =~= BACKUP_README@.take(9));
        assert(readme_heading(Template::HttpFetch) =~= HTTP_FETCH_README@.take(13));
        assert(readme_heading(Template::FilePipeline) =~= FILE_PIPELINE_README@.take(16));
    }
    match template {
        Template::Backup => BACKUP_README,
        Template::HttpFetch => HTTP_FETCH_README,
        Template::FilePipeline => FILE_PIPELINE_README,
    }
}

} // verus!
