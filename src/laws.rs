use vstd::prelude::*;
use crate::attrs::requested_fields;
use crate::definition::{field_type_of, named_fields, TypeShape};
use crate::emit::{finder_block, finder_pair_text, finders_text};
use crate::error::{result_view, Failure, TransformError};
use crate::table::{
    first_annotation_line, is_annotation_line, lines_of, table_capture, table_name_of,
};
use crate::transform::transformed;

verus! {

/// The finder blocks of requests that all name declared fields, in request order.
pub open spec fn finder_blocks(
    s: Seq<char>,
    fs: Seq<(Seq<char>, Seq<char>)>,
    tbl: Seq<char>,
    reqs: Seq<Seq<char>>,
) -> Seq<Seq<char>> {
    Seq::new(
        reqs.len(),
        |i: int| finder_pair_text(s, reqs[i], field_type_of(fs, reqs[i])->Some_0, tbl),
    )
}

proof fn lemma_finders_text_is_blocks(
    s: Seq<char>,
    fs: Seq<(Seq<char>, Seq<char>)>,
    tbl: Seq<char>,
    reqs: Seq<Seq<char>>,
)
    requires
        forall|i: int| 0 <= i < reqs.len() ==> field_type_of(fs, #[trigger] reqs[i]) is Some,
    ensures
        finders_text(s, fs, tbl, reqs) == Ok::<Seq<char>, Failure>(
            finder_blocks(s, fs, tbl, reqs).flatten(),
        ),
    decreases reqs.len(),
{
    if reqs.len() > 0 {
        let pre = reqs.drop_last();
        assert forall|i: int| 0 <= i < pre.len() implies field_type_of(fs, #[trigger] pre[i]) is Some by {
            assert(pre[i] == reqs[i]);
        }
        lemma_finders_text_is_blocks(s, fs, tbl, pre);
        assert(field_type_of(fs, reqs[reqs.len() - 1]) is Some);
        let bs = finder_blocks(s, fs, tbl, reqs);
        assert(bs.drop_last() =~= finder_blocks(s, fs, tbl, pre));
        bs.drop_last().lemma_flatten_push(bs.last());
        assert(bs.drop_last().push(bs.last()) =~= bs);
    }
}

/// For a record type with named fields and a valid table annotation, whose
/// requests all name declared fields: the output is the source text followed
/// by one block per request, in request order, and each block holds exactly
/// the two finders of that field, with its declared type and the table.
pub proof fn lemma_two_finders_per_request(
    args: Seq<char>,
    name: Seq<char>,
    shape: TypeShape,
    source: Seq<char>,
)
    requires
        named_fields(shape) is Some,
        table_name_of(source) is Ok,
        forall|i: int|
            0 <= i < requested_fields(args).len() ==> field_type_of(
                named_fields(shape)->Some_0,
                #[trigger] requested_fields(args)[i],
            ) is Some,
    ensures
        transformed(args, name, shape, source) == Ok::<Seq<char>, Failure>(
            source + finder_blocks(
                name,
                named_fields(shape)->Some_0,
                table_name_of(source)->Ok_0,
                requested_fields(args),
            ).flatten(),
        ),
        finder_blocks(
            name,
            named_fields(shape)->Some_0,
            table_name_of(source)->Ok_0,
            requested_fields(args),
        ).len() == requested_fields(args).len(),
{
    lemma_finders_text_is_blocks(
        name,
        named_fields(shape)->Some_0,
        table_name_of(source)->Ok_0,
        requested_fields(args),
    );
}

/// Generating for two lists of requests one after the other gives the
/// blocks of the first list followed by those of the second; a failure
/// in the first list comes before any in the second.
pub proof fn lemma_request_order_kept(
    s: Seq<char>,
    fs: Seq<(Seq<char>, Seq<char>)>,
    tbl: Seq<char>,
    r1: Seq<Seq<char>>,
    r2: Seq<Seq<char>>,
)
    ensures
        finders_text(s, fs, tbl, r1 + r2) == match finders_text(s, fs, tbl, r1) {
            Err(e) => Err(e),
            Ok(g1) => match finders_text(s, fs, tbl, r2) {
                Err(e) => Err(e),
                Ok(g2) => Ok(g1 + g2),
            },
        },
    decreases r2.len(),
{
    if r2.len() == 0 {
        assert(r1 + r2 =~= r1);
        match finders_text(s, fs, tbl, r1) {
            Err(e) => {},
            Ok(g1) => {
                assert(g1 + Seq::<char>::empty() =~= g1);
            },
        }
    } else {
        assert((r1 + r2).drop_last() =~= r1 + r2.drop_last());
        assert((r1 + r2).last() == r2.last());
        lemma_request_order_kept(s, fs, tbl, r1, r2.drop_last());
        match finders_text(s, fs, tbl, r1) {
            Err(e) => {},
            Ok(g1) => match finders_text(s, fs, tbl, r2.drop_last()) {
                Err(e) => {},
                Ok(g2) => match finder_block(s, fs, tbl, r2.last()) {
                    Err(e) => {},
                    Ok(b) => {
                        assert(g1 + g2 + b =~= g1 + (g2 + b));
                    },
                },
            },
        }
    }
}

/// The transformation is deterministic: two runs on the same attribute list
/// and the same definition give the same output, or the same failure.
pub proof fn lemma_deterministic(
    args: Seq<char>,
    name: Seq<char>,
    shape: TypeShape,
    source: Seq<char>,
    r1: Result<String, TransformError>,
    r2: Result<String, TransformError>,
)
    requires
        result_view(r1) == transformed(args, name, shape, source),
        result_view(r2) == transformed(args, name, shape, source),
    ensures
        result_view(r1) == result_view(r2),
{
}

/// A request that names no declared field aborts the transformation with
/// `UnknownField` for the first such request, whatever follows it.
pub proof fn lemma_unknown_field_aborts(
    args: Seq<char>,
    name: Seq<char>,
    shape: TypeShape,
    source: Seq<char>,
    k: int,
)
    requires
        named_fields(shape) is Some,
        table_name_of(source) is Ok,
        0 <= k < requested_fields(args).len(),
        field_type_of(named_fields(shape)->Some_0, requested_fields(args)[k]) is None,
        forall|i: int|
            0 <= i < k ==> field_type_of(
                named_fields(shape)->Some_0,
                #[trigger] requested_fields(args)[i],
            ) is Some,
    ensures
        transformed(args, name, shape, source) == Err::<Seq<char>, Failure>(
            Failure::UnknownField { field: requested_fields(args)[k], struct_name: name },
        ),
{
    let fs = named_fields(shape)->Some_0;
    let tbl = table_name_of(source)->Ok_0;
    let reqs = requested_fields(args);
    let pre = reqs.take(k);
    assert forall|i: int| 0 <= i < pre.len() implies field_type_of(fs, #[trigger] pre[i]) is Some by {
        assert(pre[i] == reqs[i]);
    }
    lemma_finders_text_is_blocks(name, fs, tbl, pre);
    let rest = reqs.skip(k + 1);
    assert(reqs.take(k + 1) =~= pre.push(reqs[k]));
    assert(reqs.take(k + 1).drop_last() =~= pre);
    assert(reqs =~= reqs.take(k + 1) + rest);
    lemma_request_order_kept(name, fs, tbl, reqs.take(k + 1), rest);
}

/// A record type whose source text has no table annotation line is refused
/// with `MissingTableAnnotation`, whatever fields are requested.
pub proof fn lemma_missing_annotation_aborts(
    args: Seq<char>,
    name: Seq<char>,
    shape: TypeShape,
    source: Seq<char>,
)
    requires
        named_fields(shape) is Some,
        forall|i: int|
            0 <= i < lines_of(source).len() ==> !is_annotation_line(
                #[trigger] lines_of(source)[i],
            ),
    ensures
        transformed(args, name, shape, source) == Err::<Seq<char>, Failure>(
            Failure::MissingTableAnnotation,
        ),
{
    lemma_no_annotation_line(lines_of(source));
}

proof fn lemma_no_annotation_line(ls: Seq<Seq<char>>)
    requires
        forall|i: int| 0 <= i < ls.len() ==> !is_annotation_line(#[trigger] ls[i]),
    ensures
        first_annotation_line(ls) is None,
    decreases ls.len(),
{
    if ls.len() > 0 {
        let rest = ls.drop_first();
        assert forall|i: int| 0 <= i < rest.len() implies !is_annotation_line(#[trigger] rest[i]) by {
            assert(rest[i] == ls[i + 1]);
        }
        lemma_no_annotation_line(rest);
    }
}

/// A record type whose first annotation line holds no quoted table name is
/// refused with `MalformedAnnotation`, whatever fields are requested.
pub proof fn lemma_malformed_annotation_aborts(
    args: Seq<char>,
    name: Seq<char>,
    shape: TypeShape,
    source: Seq<char>,
)
    requires
        named_fields(shape) is Some,
        first_annotation_line(lines_of(source)) is Some,
        table_capture(first_annotation_line(lines_of(source))->Some_0) is None,
    ensures
        transformed(args, name, shape, source) == Err::<Seq<char>, Failure>(
            Failure::MalformedAnnotation,
        ),
{
}

/// A definition that is not a record type with named fields is refused with
/// `UnsupportedShape`, whatever the attribute list and the source text hold.
pub proof fn lemma_unsupported_shape_aborts(
    args: Seq<char>,
    name: Seq<char>,
    shape: TypeShape,
    source: Seq<char>,
)
    requires
        named_fields(shape) is None,
    ensures
        transformed(args, name, shape, source) == Err::<Seq<char>, Failure>(
            Failure::UnsupportedShape,
        ),
{
}

} // verus!
