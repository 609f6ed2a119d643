use vstd::prelude::*;
use crate::definition::{field_type_of, fields_view, FieldDef};
use crate::error::{result_view, Failure, TransformError};

verus! {

/// The unique-result finder for field `f` of type `t` on record `s` mapped
/// to table `tbl`: every retrieval failure becomes `None`.
pub open spec fn find_one_text(s: Seq<char>, f: Seq<char>, t: Seq<char>, tbl: Seq<char>) -> Seq<
    char,
> {
    "pub fn find_by_"@ + f + "(attr: &"@ + t + ", conn: &PgConnection) -> Option<"@ + s
        + "> { use crate::schema::"@ + tbl + "::dsl::"@ + f + " as "@ + f + "_col; match "@ + tbl
        + "::table.filter("@ + f
        + "_col.eq(attr)).first(conn) { Ok(res) => Some(res), Err(_) => None, } }"@
}

/// The multi-result finder for field `f` of type `t` on record `s` mapped to
/// table `tbl`: the store's error is handed back unchanged.
pub open spec fn find_all_text(s: Seq<char>, f: Seq<char>, t: Seq<char>, tbl: Seq<char>) -> Seq<
    char,
> {
    "pub fn find_all_by_"@ + f + "(attr: &"@ + t + ", conn: &PgConnection) -> Result<Vec<"@ + s
        + ">, ::diesel::result::Error> { use crate::schema::"@ + tbl + "::dsl::"@ + f + " as "@
        + f + "_col; "@ + tbl + "::table.filter("@ + f + "_col.eq(attr)).get_results(conn) }"@
}

/// The block generated for one requested field: an `impl` of the record that
/// holds its two finders.
pub open spec fn finder_pair_text(s: Seq<char>, f: Seq<char>, t: Seq<char>, tbl: Seq<char>) -> Seq<
    char,
> {
    "\nimpl "@ + s + " { "@ + find_one_text(s, f, t, tbl) + " "@ + find_all_text(s, f, t, tbl)
        + " }"@
}

/// The block for one requested field, or the failure when the record
/// declares no field of that name.
pub open spec fn finder_block(
    s: Seq<char>,
    fs: Seq<(Seq<char>, Seq<char>)>,
    tbl: Seq<char>,
    f: Seq<char>,
) -> Result<Seq<char>, Failure> {
    match field_type_of(fs, f) {
        Some(t) => Ok(finder_pair_text(s, f, t, tbl)),
        None => Err(Failure::UnknownField { field: f, struct_name: s }),
    }
}

/// The blocks for all requested fields, in request order, or the failure of
/// the first request that names no field.
pub open spec fn finders_text(
    s: Seq<char>,
    fs: Seq<(Seq<char>, Seq<char>)>,
    tbl: Seq<char>,
    reqs: Seq<Seq<char>>,
) -> Result<Seq<char>, Failure>
    decreases reqs.len(),
{
    if reqs.len() == 0 {
        Ok(Seq::empty())
    } else {
        match finders_text(s, fs, tbl, reqs.drop_last()) {
            Err(e) => Err(e),
            Ok(g) => match finder_block(s, fs, tbl, reqs.last()) {
                Err(e) => Err(e),
                Ok(b) => Ok(g + b),
            },
        }
    }
}

/// The declared type of the first field called `name`.
fn lookup_field_type<'a>(fields: &'a Vec<FieldDef>, name: &String) -> (r: Option<&'a String>)
    ensures
        match r {
            Some(t) => field_type_of(fields_view(fields@), name@) == Some(t@),
            None => field_type_of(fields_view(fields@), name@) is None,
        },
{
    let ghost fs = fields_view(fields@);
    let mut i: usize = 0;
    assert(fs.skip(0) == fs);
    while i < fields.len()
        invariant
            i <= fields@.len(),
            fs == fields_view(fields@),
            field_type_of(fs.skip(i as int), name@) == field_type_of(fs, name@),
        decreases fields.len() - i,
    {
        assert(fs.skip(i as int)[0] == fields@[i as int]@);
        assert(fs.skip(i as int).drop_first() == fs.skip(i + 1));
        if fields[i].name == *name {
            return Some(&fields[i].ty);
        }
        i = i + 1;
    }
    None
}

fn append_find_one(out: &mut String, s: &str, f: &str, t: &str, tbl: &str)
    ensures
        final(out)@ == old(out)@ + find_one_text(s@, f@, t@, tbl@),
{
    out.append("pub fn find_by_");
    out.append(f);
    out.append("(attr: &");
    out.append(t);
    out.append(", conn: &PgConnection) -> Option<");
    out.append(s);
    out.append("> { use crate::schema::");
    out.append(tbl);
    out.append("::dsl::");
    out.append(f);
    out.append(" as ");
    out.append(f);
    out.append("_col; match ");
    out.append(tbl);
    out.append("::table.filter(");
    out.append(f);
    out.append("_col.eq(attr)).first(conn) { Ok(res) => Some(res), Err(_) => None, } }");
    assert(final(out)@ =~= old(out)@ + find_one_text(s@, f@, t@, tbl@));
}

fn append_find_all(out: &mut String, s: &str, f: &str, t: &str, tbl: &str)
    ensures
        final(out)@ == old(out)@ + find_all_text(s@, f@, t@, tbl@),
{
    out.append("pub fn find_all_by_");
    out.append(f);
    out.append("(attr: &");
    out.append(t);
    out.append(", conn: &PgConnection) -> Result<Vec<");
    out.append(s);
    out.append(">, ::diesel::result::Error> { use crate::schema::");
    out.append(tbl);
    out.append("::dsl::");
    out.append(f);
    out.append(" as ");
    out.append(f);
    out.append("_col; ");
    out.append(tbl);
    out.append("::table.filter(");
    out.append(f);
    out.append("_col.eq(attr)).get_results(conn) }");
    assert(final(out)@ =~= old(out)@ + find_all_text(s@, f@, t@, tbl@));
}

/// Generates the finder pair of one requested field, looked up among the
/// record's declared fields.
pub fn gen_find_by_func(
    struct_name: &str,
    table_name: &str,
    struct_attribute: &String,
    fields: &Vec<FieldDef>,
) -> (r: Result<String, TransformError>)
    ensures
        result_view(r) == finder_block(
            struct_name@,
            fields_view(fields@),
            table_name@,
            struct_attribute@,
        ),
{
    match lookup_field_type(fields, struct_attribute) {
        None => Err(
            TransformError::UnknownField {
                field: struct_attribute.clone(),
                struct_name: struct_name.to_string(),
            },
        ),
        Some(ty) => {
            let f = struct_attribute.as_str();
            let mut out = String::new();
            out.append("\nimpl ");
            out.append(struct_name);
            out.append(" { ");
            append_find_one(&mut out, struct_name, f, ty.as_str(), table_name);
            out.append(" ");
            append_find_all(&mut out, struct_name, f, ty.as_str(), table_name);
            out.append(" }");
            assert(out@ =~= finder_pair_text(struct_name@, f@, ty@, table_name@));
            Ok(out)
        },
    }
}

} // verus!
