//! Equality predicates over the primary-key columns of a table.

use crate::escape::{doubled, escape_ident};
use vstd::prelude::*;
use vstd::string::*;
use vstd::utf8::*;

verus! {

/// A column of a table as the schema layer describes it. The name is lent as
/// the undecoded bytes of the schema snapshot, without a terminator.
#[derive(Clone, Copy, Debug)]
pub struct ColumnInfo<'a> {
    pub name: &'a [u8],
}

impl<'a> ColumnInfo<'a> {
    /// The name can be read as text.
    pub open spec fn decodable(&self) -> bool {
        valid_utf8(self.name@)
    }

    /// The name as text; meaningful for a decodable column.
    pub open spec fn name_text(&self) -> Seq<char> {
        decode_utf8(self.name@)
    }
}

/// A column name that is not UTF-8.
#[derive(Clone, Copy, Debug, PartialEq, Eq)]
pub struct DecodeError {
    /// Position of the column in the list that was given.
    pub column: usize,
    /// Number of leading bytes of the name that do decode.
    pub valid_up_to: usize,
}

/// `n` leading bytes of `bytes` are UTF-8 and no longer prefix is.
pub open spec fn longest_valid_prefix(bytes: Seq<u8>, n: int) -> bool {
    &&& partial_valid_utf8(bytes, n)
    &&& forall|m: int| n < m <= bytes.len() ==> !#[trigger] partial_valid_utf8(bytes, m)
}

/// `core::str::from_utf8`, with the error reduced to its `valid_up_to()`.
/// The standard library accepts exactly the byte strings that are UTF-8 and
/// hands the same bytes back as text; on the others it reports the greatest
/// length at which a prefix would still have been accepted.
#[verifier::external_body]
fn decode_text<'a>(bytes: &'a [u8]) -> (res: Result<&'a str, usize>)
    ensures
        match res {
            Ok(text) => valid_utf8(bytes@) && text.spec_bytes() == bytes@,
            Err(n) => !valid_utf8(bytes@) && longest_valid_prefix(bytes@, n as int),
        },
{
    match core::str::from_utf8(bytes) {
        Ok(text) => Ok(text),
        Err(e) => Err(e.valid_up_to()),
    }
}

/// The text that qualifies the right-hand side: the prefix, or nothing.
pub open spec fn prefix_text(rhs_prefix: Option<&str>) -> Seq<char> {
    match rhs_prefix {
        Some(p) => p@,
        None => Seq::empty(),
    }
}

/// `name` between double quotes, with the quotes inside it doubled.
pub open spec fn quoted_ident(name: Seq<char>) -> Seq<char> {
    "\""@ + doubled(name, '"') + "\""@
}

/// One clause: the quoted column equals the quoted column behind `prefix`.
pub open spec fn pk_clause(name: Seq<char>, prefix: Seq<char>) -> Seq<char> {
    quoted_ident(name) + " = "@ + prefix + quoted_ident(name)
}

/// The clauses of `names`, in order, with ` AND ` between neighbours.
pub open spec fn pk_predicate(names: Seq<Seq<char>>, prefix: Seq<char>) -> Seq<char>
    decreases names.len(),
{
    if names.len() == 0 {
        Seq::empty()
    } else if names.len() == 1 {
        pk_clause(names[0], prefix)
    } else {
        pk_predicate(names.drop_last(), prefix) + " AND "@ + pk_clause(names.last(), prefix)
    }
}

/// The decoded names of `columns`, in order.
pub open spec fn column_names(columns: Seq<ColumnInfo>) -> Seq<Seq<char>> {
    columns.map_values(|c: ColumnInfo| c.name_text())
}

/// `at` is the first column of `columns` whose name does not decode.
pub open spec fn first_undecodable(columns: Seq<ColumnInfo>, at: int) -> bool {
    &&& 0 <= at < columns.len()
    &&& !columns[at].decodable()
    &&& forall|j: int| 0 <= j < at ==> (#[trigger] columns[j]).decodable()
}

/// Builds `"a" = "a" AND "b" = "b"` over `columns`, the right-hand side of
/// each clause qualified by `rhs_prefix` where one is given. Fails on the
/// first column whose name is not UTF-8, and on nothing else.
pub fn pk_where_list(columns: &[ColumnInfo], rhs_prefix: Option<&str>) -> (res: Result<
    String,
    DecodeError,
>)
    ensures
        match res {
            Ok(text) => {
                &&& forall|j: int| 0 <= j < columns@.len() ==> (#[trigger] columns@[j]).decodable()
                &&& text@ == pk_predicate(column_names(columns@), prefix_text(rhs_prefix))
            },
            Err(e) => {
                &&& first_undecodable(columns@, e.column as int)
                &&& longest_valid_prefix(columns@[e.column as int].name@, e.valid_up_to as int)
            },
        },
{
    let mut out = String::new();
    let mut i: usize = 0;
    while i < columns.len()
        invariant
            i <= columns@.len(),
            forall|j: int| 0 <= j < i ==> (#[trigger] columns@[j]).decodable(),
            out@ == pk_predicate(
                column_names(columns@.take(i as int)),
                prefix_text(rhs_prefix),
            ),
        decreases columns@.len() - i,
    {
        let name = match decode_text(columns[i].name) {
            Ok(text) => text,
            Err(n) => {
                return Err(DecodeError { column: i, valid_up_to: n });
            },
        };
        let escaped = escape_ident(name);
        if i > 0 {
            out.append(" AND ");
        }
        out.append("\"");
        out.append(escaped.as_str());
        out.append("\"");
        out.append(" = ");
        match rhs_prefix {
            Some(p) => {
                out.append(p);
            },
            None => {},
        }
        out.append("\"");
        out.append(escaped.as_str());
        out.append("\"");
        proof {
            let prefix = prefix_text(rhs_prefix);
            let before = column_names(columns@.take(i as int));
            let after = column_names(columns@.take(i + 1));
            assert(name@ == columns@[i as int].name_text()) by {
                encode_utf8_decode_utf8(name@);
            }
            assert(after.drop_last() == before);
            assert(after.last() == name@);
            assert(out@ == pk_predicate(after, prefix));
        }
        i += 1;
    }
    proof {
        assert(columns@.take(columns@.len() as int) == columns@);
    }
    Ok(out)
}

} // verus!
