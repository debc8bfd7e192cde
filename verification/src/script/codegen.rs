//! Lowering of a validated script into a standalone Rust program.
use vstd::prelude::*;
use vstd::string::StringExecFns;

use super::validate::{SpecStepKind, SpecValidatedStep, StepKind, ValidatedScript, ValidatedStep};
use crate::text::{lines, spec_lines};

verus! {

/// The text that `format!("{:?}", s)` gives for a string with the characters `s`.
pub uninterp spec fn debug_str(s: Seq<char>) -> Seq<char>;

/// Renders a string as a Rust string literal with std's `Debug` formatting
/// (`format!("{:?}", value)`): double quotes around it, with quotes,
/// backslashes and non-printable characters escaped. The contract names the
/// result `debug_str` of the characters; what those escapes are is left to std.
#[verifier::external_body]
fn quote(value: &str) -> (r: String)
    ensures
        r@ == debug_str(value@),
{
    format!("{value:?}")
}

/// The newline that ends every generated line.
pub open spec fn nl() -> Seq<char> {
    "\n"@
}

/// The items of a list as `Debug` joins them: each quoted, separated by ", ".
pub open spec fn debug_items(items: Seq<Seq<char>>) -> Seq<char>
    decreases items.len(),
{
    if items.len() == 0 {
        Seq::empty()
    } else if items.len() == 1 {
        debug_str(items[0])
    } else {
        debug_items(items.drop_last()) + ", "@ + debug_str(items.last())
    }
}

/// A list of strings as `format!("{:?}", list)` renders it: its items in square brackets.
pub open spec fn debug_list(items: Seq<Seq<char>>) -> Seq<char> {
    "["@ + debug_items(items) + "]"@
}

/// Lines each preceded by `prefix` and followed by a newline.
pub open spec fn prefixed_lines(ls: Seq<Seq<char>>, prefix: Seq<char>) -> Seq<char>
    decreases ls.len(),
{
    if ls.len() == 0 {
        Seq::empty()
    } else {
        prefixed_lines(ls.drop_last(), prefix) + prefix + ls.last() + nl()
    }
}

/// The comment that opens the block of a step: its first line after
/// "// Step: ", every further line of its name commented on its own line.
pub open spec fn comment_block(name: Seq<char>) -> Seq<char> {
    let ls = spec_lines(name);
    if ls.len() == 0 {
        "    // Step:"@ + nl()
    } else {
        "    // Step: "@ + ls[0] + nl() + prefixed_lines(ls.drop_first(), "    // "@)
    }
}

/// A call line with one quoted argument.
pub open spec fn call1(head: Seq<char>, a: Seq<char>) -> Seq<char> {
    head + debug_str(a) + ")?;"@ + nl()
}

/// A call line with two quoted arguments.
pub open spec fn call2(head: Seq<char>, a: Seq<char>, b: Seq<char>) -> Seq<char> {
    head + debug_str(a) + ", "@ + debug_str(b) + ")?;"@ + nl()
}

/// The message attached to a failure to create the directory `path`.
pub open spec fn mkdir_context(path: Seq<char>) -> Seq<char> {
    "Failed to create "@ + path + " directory"@
}

/// The code that creates a directory and its parents, with the failure
/// naming the directory:
/// `std::fs::create_dir_all("build")` then `.context("Failed to create build directory")?;`.
pub open spec fn mkdir_code(path: Seq<char>) -> Seq<char> {
    "    std::fs::create_dir_all("@ + debug_str(path) + ")"@ + nl() + "        .context("@ + debug_str(
        mkdir_context(path),
    ) + ")?;"@ + nl()
}

/// The code that carries out one step operation.
pub open spec fn step_code(kind: SpecStepKind) -> Seq<char> {
    match kind {
        SpecStepKind::EnvRequire { vars } => "    env::require_vars(&"@ + debug_list(vars) + ")?;"@ + nl(),
        SpecStepKind::FsMkdirAll { path } => mkdir_code(path),
        SpecStepKind::FsWriteString { path, content } => call2("    fs::write_string("@, path, content),
        SpecStepKind::FsAppend { path, content } => call2("    fs::append("@, path, content),
        SpecStepKind::FsCopy { from, to } => call2("    fs::copy("@, from, to),
        SpecStepKind::FsRename { from, to } => call2("    fs::rename("@, from, to),
        SpecStepKind::FsRemove { path } => call1("    fs::remove("@, path),
        SpecStepKind::HttpDownload { url, path } => call2("    http::download("@, url, path),
        SpecStepKind::HttpGet { url, dest } => call1("    let body = http::get("@, url)
            + "    fs::write_string("@ + debug_str(dest) + ", body)?;"@ + nl(),
        SpecStepKind::ArchiveCreateZip { source, dest } => call2("    archive::create_zip("@, source, dest),
        SpecStepKind::ArchiveCreateTar { source, dest } => call2("    archive::create_tar("@, source, dest),
        SpecStepKind::ArchiveCreateTarGz { source, dest } => call2(
            "    archive::create_tar_gz("@,
            source,
            dest,
        ),
        SpecStepKind::ArchiveExtractZip { archive, dest } => call2("    archive::extract_zip("@, archive, dest),
        SpecStepKind::ArchiveExtractTar { archive, dest } => call2("    archive::extract_tar("@, archive, dest),
        SpecStepKind::ArchiveExtractTarGz { archive, dest } => call2(
            "    archive::extract_tar_gz("@,
            archive,
            dest,
        ),
        SpecStepKind::ShRun { command } => call1("    sh::run("@, command),
    }
}

/// The block generated for one step: its comment, then its code.
pub open spec fn step_block(step: SpecValidatedStep) -> Seq<char> {
    comment_block(step.name) + step_code(step.kind)
}

/// The blocks of all steps, each followed by an empty line.
pub open spec fn step_blocks(steps: Seq<SpecValidatedStep>) -> Seq<char>
    decreases steps.len(),
{
    if steps.len() == 0 {
        Seq::empty()
    } else {
        step_blocks(steps.drop_last()) + step_block(steps.last()) + nl()
    }
}

/// The whole generated program for a validated script.
pub open spec fn spec_render_script(steps: Seq<SpecValidatedStep>) -> Seq<char> {
    "use smop::prelude::*;\n\n"@ + "fn main() -> Result<()> {\n"@ + step_blocks(steps) + "    Ok(())\n"@ + "}\n"@
}

/// Appends a line and its newline.
fn push_line(output: &mut String, line: &str)
    ensures
        final(output)@ == old(output)@ + line@ + nl(),
{
    output.append(line);
    output.append("\n");
}

/// Appends the comment that opens a step's block.
fn push_step_comment(output: &mut String, step_name: &str)
    ensures
        final(output)@ == old(output)@ + comment_block(step_name@),
{
    let ls = lines(step_name);
    if ls.len() == 0 {
        push_line(output, "    // Step:");
        return;
    }
    output.append("    // Step: ");
    push_line(output, ls[0].as_str());
    let ghost rest = ls.deep_view().drop_first();
    let ghost base = output@;
    let mut i: usize = 1;
    while i < ls.len()
        invariant
            1 <= i <= ls@.len(),
            rest == ls.deep_view().drop_first(),
            output@ == base + prefixed_lines(rest.take(i - 1), "    // "@),
        decreases ls@.len() - i,
    {
        output.append("    // ");
        push_line(output, ls[i].as_str());
        assert(rest.take(i as int).drop_last() =~= rest.take(i - 1));
        i = i + 1;
    }
    assert(rest.take(i - 1) =~= rest);
}

/// Appends a call with one quoted argument.
fn push_call1(output: &mut String, head: &str, a: &String)
    ensures
        final(output)@ == old(output)@ + call1(head@, a@),
{
    output.append(head);
    let qa = quote(a.as_str());
    output.append(qa.as_str());
    push_line(output, ")?;");
}

/// Appends a call with two quoted arguments.
fn push_call2(output: &mut String, head: &str, a: &String, b: &String)
    ensures
        final(output)@ == old(output)@ + call2(head@, a@, b@),
{
    output.append(head);
    let qa = quote(a.as_str());
    output.append(qa.as_str());
    output.append(", ");
    let qb = quote(b.as_str());
    output.append(qb.as_str());
    push_line(output, ")?;");
}

/// Appends the code that creates a directory, its failure naming the directory.
fn push_mkdir(output: &mut String, path: &String)
    ensures
        final(output)@ == old(output)@ + mkdir_code(path@),
{
    output.append("    std::fs::create_dir_all(");
    let qp = quote(path.as_str());
    output.append(qp.as_str());
    push_line(output, ")");
    output.append("        .context(");
    let mut message = String::new();
    message.append("Failed to create ");
    message.append(path.as_str());
    message.append(" directory");
    let qm = quote(message.as_str());
    output.append(qm.as_str());
    push_line(output, ")?;");
}

/// Appends a list of strings as `Debug` renders it.
fn push_debug_list(output: &mut String, items: &Vec<String>)
    ensures
        final(output)@ == old(output)@ + debug_list(items.deep_view()),
{
    let ghost base = old(output)@;
    output.append("[");
    let mut i: usize = 0;
    while i < items.len()
        invariant
            i <= items@.len(),
            output@ == base + "["@ + debug_items(items.deep_view().take(i as int)),
        decreases items@.len() - i,
    {
        if i > 0 {
            output.append(", ");
        }
        let q = quote(items[i].as_str());
        output.append(q.as_str());
        assert(items.deep_view().take(i + 1).drop_last() =~= items.deep_view().take(i as int));
        i = i + 1;
    }
    assert(items.deep_view().take(i as int) =~= items.deep_view());
    output.append("]");
}

/// Appends the block of one step: its comment, then the code of its operation.
fn render_step(output: &mut String, step: &ValidatedStep)
    ensures
        final(output)@ == old(output)@ + step_block(step@),
{
    push_step_comment(output, step.name.as_str());
    match &step.kind {
        StepKind::EnvRequire { vars } => {
            output.append("    env::require_vars(&");
            push_debug_list(output, vars);
            push_line(output, ")?;");
        },
        StepKind::FsMkdirAll { path } => push_mkdir(output, path),
        StepKind::FsWriteString { path, content } => push_call2(output, "    fs::write_string(", path, content),
        StepKind::FsAppend { path, content } => push_call2(output, "    fs::append(", path, content),
        StepKind::FsCopy { from, to } => push_call2(output, "    fs::copy(", from, to),
        StepKind::FsRename { from, to } => push_call2(output, "    fs::rename(", from, to),
        StepKind::FsRemove { path } => push_call1(output, "    fs::remove(", path),
        StepKind::HttpDownload { url, path } => push_call2(output, "    http::download(", url, path),
        StepKind::HttpGet { url, dest } => {
            push_call1(output, "    let body = http::get(", url);
            output.append("    fs::write_string(");
            let qd = quote(dest.as_str());
            output.append(qd.as_str());
            push_line(output, ", body)?;");
        },
        StepKind::ArchiveCreateZip { source, dest } => push_call2(output, "    archive::create_zip(", source, dest),
        StepKind::ArchiveCreateTar { source, dest } => push_call2(output, "    archive::create_tar(", source, dest),
        StepKind::ArchiveCreateTarGz { source, dest } => push_call2(
            output,
            "    archive::create_tar_gz(",
            source,
            dest,
        ),
        StepKind::ArchiveExtractZip { archive, dest } => push_call2(
            output,
            "    archive::extract_zip(",
            archive,
            dest,
        ),
        StepKind::ArchiveExtractTar { archive, dest } => push_call2(
            output,
            "    archive::extract_tar(",
            archive,
            dest,
        ),
        StepKind::ArchiveExtractTarGz { archive, dest } => push_call2(
            output,
            "    archive::extract_tar_gz(",
            archive,
            dest,
        ),
        StepKind::ShRun { command } => push_call1(output, "    sh::run(", command),
    }
}

/// Renders a validated script as a standalone Rust program: the prelude
/// import, a `main` that runs one commented block per step in order, and `Ok(())`.
pub fn render_script(script: &ValidatedScript) -> (r: String)
    ensures
        r@ == spec_render_script(script@.steps),
{
    let mut output = String::new();
    output.append("use smop::prelude::*;\n\n");
    output.append("fn main() -> Result<()> {\n");
    let ghost base = output@;
    let ghost steps = script@.steps;
    let mut i: usize = 0;
    while i < script.steps.len()
        invariant
            i <= script.steps@.len(),
            steps == script@.steps,
            output@ == base + step_blocks(steps.take(i as int)),
        decreases script.steps@.len() - i,
    {
        render_step(&mut output, &script.steps[i]);
        output.append("\n");
        assert(steps.take(i + 1).drop_last() =~= steps.take(i as int));
        i = i + 1;
    }
    assert(steps.take(i as int) =~= steps);
    output.append("    Ok(())\n");
    output.append("}\n");
    output
}

/// Every generated call passes the step's fields in their declared order:
/// the first quoted argument is the first field (for `fs.copy`, the source
/// `from`; for an archive, what is read), the second is the second field (the
/// destination). One-argument calls quote their only field, and `http.get`
/// writes the body it fetched from `url` to `dest`.
pub proof fn lemma_calls_keep_field_order(kind: SpecStepKind)
    ensures
        kind matches SpecStepKind::FsWriteString { path, content } ==> step_code(kind) == "    fs::write_string("@ + debug_str(path) + ", "@
            + debug_str(content) + ")?;\n"@,
        kind matches SpecStepKind::FsAppend { path, content } ==> step_code(kind) == "    fs::append("@ + debug_str(path) + ", "@
            + debug_str(content) + ")?;\n"@,
        kind matches SpecStepKind::FsCopy { from, to } ==> step_code(kind) == "    fs::copy("@ + debug_str(from) + ", "@
            + debug_str(to) + ")?;\n"@,
        kind matches SpecStepKind::FsRename { from, to } ==> step_code(kind) == "    fs::rename("@ + debug_str(from) + ", "@
            + debug_str(to) + ")?;\n"@,
        kind matches SpecStepKind::HttpDownload { url, path } ==> step_code(kind) == "    http::download("@ + debug_str(url) + ", "@
            + debug_str(path) + ")?;\n"@,
        kind matches SpecStepKind::ArchiveCreateZip { source, dest } ==> step_code(kind) == "    archive::create_zip("@ + debug_str(source) + ", "@
            + debug_str(dest) + ")?;\n"@,
        kind matches SpecStepKind::ArchiveCreateTar { source, dest } ==> step_code(kind) == "    archive::create_tar("@ + debug_str(source) + ", "@
            + debug_str(dest) + ")?;\n"@,
        kind matches SpecStepKind::ArchiveCreateTarGz { source, dest } ==> step_code(kind) == "    archive::create_tar_gz("@ + debug_str(source) + ", "@
            + debug_str(dest) + ")?;\n"@,
        kind matches SpecStepKind::ArchiveExtractZip { archive, dest } ==> step_code(kind) == "    archive::extract_zip("@ + debug_str(archive) + ", "@
            + debug_str(dest) + ")?;\n"@,
        kind matches SpecStepKind::ArchiveExtractTar { archive, dest } ==> step_code(kind) == "    archive::extract_tar("@ + debug_str(archive) + ", "@
            + debug_str(dest) + ")?;\n"@,
        kind matches SpecStepKind::ArchiveExtractTarGz { archive, dest } ==> step_code(kind) == "    archive::extract_tar_gz("@ + debug_str(archive) + ", "@
            + debug_str(dest) + ")?;\n"@,
        kind matches SpecStepKind::FsMkdirAll { path } ==> step_code(kind) == "    std::fs::create_dir_all("@
            + debug_str(path) + ")\n"@ + "        .context("@ + debug_str("Failed to create "@ + path + " directory"@)
            + ")?;\n"@,
        kind matches SpecStepKind::FsRemove { path } ==> step_code(kind) == "    fs::remove("@ + debug_str(path) + ")?;\n"@,
        kind matches SpecStepKind::ShRun { command } ==> step_code(kind) == "    sh::run("@ + debug_str(command) + ")?;\n"@,
        kind matches SpecStepKind::HttpGet { url, dest } ==> step_code(kind) == "    let body = http::get("@ + debug_str(url)
            + ")?;\n"@ + "    fs::write_string("@ + debug_str(dest) + ", body)?;\n"@,
{
    reveal_strlit("\n");
    reveal_strlit(")\n");
    reveal_strlit(")?;\n");
    reveal_strlit(")");
    reveal_strlit(")?;");
    reveal_strlit(", body)?;\n");
    reveal_strlit(", body)?;");
}

} // verus!
