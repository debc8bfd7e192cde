//! Text tables, through comfy-table.
use vstd::prelude::*;

use crate::sh::str_views;

verus! {

#[verifier::external_type_specification]
#[verifier::external_body]
pub struct ExTable(comfy_table::Table);

/// The rows added to a comfy-table `Table`, each as its cells' characters.
pub uninterp spec fn table_rows(t: comfy_table::Table) -> Seq<Seq<Seq<char>>>;

/// The header row of a comfy-table `Table`, if one was set.
pub uninterp spec fn table_header(t: comfy_table::Table) -> Option<Seq<Seq<char>>>;

/// The style of a comfy-table `Table`, written as the 19-character preset
/// string that holds one character per table component, in comfy-table's
/// order (a space for a component that is not drawn).
pub uninterp spec fn table_preset(t: comfy_table::Table) -> Seq<char>;

/// Whether every setting of a comfy-table `Table` other than its preset,
/// header and rows is still at its default.
pub uninterp spec fn table_defaults(t: comfy_table::Table) -> bool;

/// The text comfy-table renders for a table with this preset, header and
/// rows and every other setting left at its default.
pub uninterp spec fn rendered_table(preset: Seq<char>, header: Option<Seq<Seq<char>>>, rows: Seq<Seq<Seq<char>>>) -> Seq<char>;

/// Calls comfy-table's `Table::new`: a table with no header and no rows,
/// every setting at its default.
#[verifier::external_body]
fn table_new() -> (t: comfy_table::Table)
    ensures
        table_rows(t) == Seq::<Seq<Seq<char>>>::empty(),
        table_header(t) is None,
        table_defaults(t),
{
    comfy_table::Table::new()
}

/// Gives comfy-table's `presets::UTF8_FULL`, the full border preset drawn
/// with box-drawing characters; the contract states its value as the source
/// defines it.
#[verifier::external_body]
fn utf8_full_preset() -> (r: &'static str)
    ensures
        r@ == "││──╞═╪╡┆╌┼├┤┬┴┌┐└┘"@,
{
    comfy_table::presets::UTF8_FULL
}

/// Calls comfy-table's `Table::load_preset` with a full preset, one
/// character for each of the 19 table components: the style becomes that
/// preset; the header, rows and other settings are kept. (A shorter string
/// would keep part of the earlier style, a longer one is cut, so only full
/// presets are admitted.)
#[verifier::external_body]
fn load_preset(t: &mut comfy_table::Table, preset: &str)
    requires
        preset@.len() == 19,
    ensures
        table_preset(*final(t)) == preset@,
        table_defaults(*final(t)) == table_defaults(*old(t)),
        table_header(*final(t)) == table_header(*old(t)),
        table_rows(*final(t)) == table_rows(*old(t)),
{
    t.load_preset(preset);
}

/// Calls comfy-table's `Table::set_header`: the header row is recorded,
/// the preset, rows and other settings are kept.
#[verifier::external_body]
fn set_header(t: &mut comfy_table::Table, headers: &[&str])
    ensures
        table_header(*final(t)) == Some(str_views(headers@)),
        table_defaults(*final(t)) == table_defaults(*old(t)),
        table_preset(*final(t)) == table_preset(*old(t)),
        table_rows(*final(t)) == table_rows(*old(t)),
{
    t.set_header(headers.to_vec());
}

/// Calls comfy-table's `Table::add_row`: the row is appended, the preset,
/// header and other settings are kept.
#[verifier::external_body]
fn add_row(t: &mut comfy_table::Table, row: &Vec<String>)
    ensures
        table_rows(*final(t)) == table_rows(*old(t)).push(row.deep_view()),
        table_defaults(*final(t)) == table_defaults(*old(t)),
        table_preset(*final(t)) == table_preset(*old(t)),
        table_header(*final(t)) == table_header(*old(t)),
{
    t.add_row(row);
}

/// Renders a comfy-table `Table` with `to_string`. For a table whose other
/// settings are at their defaults, the contract names the text
/// `rendered_table` of the table's preset, header and rows. The layout
/// comfy-table draws is not stated.
#[verifier::external_body]
fn render(t: &comfy_table::Table) -> (r: String)
    requires
        table_defaults(*t),
    ensures
        r@ == rendered_table(table_preset(*t), table_header(*t), table_rows(*t)),
{
    t.to_string()
}

/// Formats headers and rows as a table with full box-drawing borders, as
/// comfy-table draws it; the caller decides where to print it.
pub fn table(headers: &[&str], rows: &[Vec<String>]) -> (r: String)
    ensures
        r@ == rendered_table(
            "││──╞═╪╡┆╌┼├┤┬┴┌┐└┘"@,
            Some(str_views(headers@)),
            rows@.map_values(|row: Vec<String>| row.deep_view()),
        ),
{
    let mut t = table_new();
    let preset = utf8_full_preset();
    proof {
        reveal_strlit("││──╞═╪╡┆╌┼├┤┬┴┌┐└┘");
    }
    load_preset(&mut t, preset);
    set_header(&mut t, headers);
    let mut i: usize = 0;
    while i < rows.len()
        invariant
            i <= rows@.len(),
            table_preset(t) == "││──╞═╪╡┆╌┼├┤┬┴┌┐└┘"@,
            table_header(t) == Some(str_views(headers@)),
            table_defaults(t),
            table_rows(t) == rows@.take(i as int).map_values(|row: Vec<String>| row.deep_view()),
        decreases rows@.len() - i,
    {
        add_row(&mut t, &rows[i]);
        assert(rows@.take(i + 1).map_values(|row: Vec<String>| row.deep_view()) =~= rows@.take(i as int).map_values(
            |row: Vec<String>| row.deep_view(),
        ).push(rows@[i as int].deep_view()));
        i = i + 1;
    }
    assert(rows@.take(i as int) =~= rows@);
    render(&t)
}

} // verus!
