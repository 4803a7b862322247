use vstd::prelude::*;

verus! {

/// A source range with 1-based lines and columns; the end column is exclusive.
#[derive(Debug, Clone, Copy, PartialEq, Eq)]
pub struct GleanRange {
    pub column_begin: u64,
    pub column_end: u64,
    pub line_begin: u64,
    pub line_end: u64,
}

/// A range given with neither three nor four numbers.
#[derive(Debug, Clone, Copy, PartialEq, Eq)]
pub struct BadRange {
    pub len: usize,
}

/// A 0-based line or column made 1-based.
pub open spec fn one_based(x: i32) -> u64 {
    (x + 1) as u64
}

/// The range written `[line, start column, end column]` or
/// `[start line, start column, end line, end column]`, all 0-based; an end
/// column before the start column is raised to it.
pub open spec fn range_of(r: Seq<i32>) -> GleanRange {
    let line_end = if r.len() == 3 {
        one_based(r[0])
    } else {
        one_based(r[2])
    };
    let column_begin = one_based(r[1]);
    let column_end = r[r.len() - 1] as u64;
    GleanRange {
        line_begin: one_based(r[0]),
        column_begin,
        line_end,
        column_end: if column_end < column_begin {
            column_begin
        } else {
            column_end
        },
    }
}

fn one_based_exec(x: i32) -> (r: u64)
    ensures
        r == one_based(x),
{
    (x as i64 + 1) as u64
}

/// Turns a range of three or four 0-based numbers into a 1-based `GleanRange`.
pub fn decode_scip_range(range: &[i32]) -> (r: Result<GleanRange, BadRange>)
    ensures
        r is Ok <==> (range@.len() == 3 || range@.len() == 4),
        r matches Ok(g) ==> g == range_of(range@),
        r matches Err(e) ==> e.len == range@.len(),
{
    let n = range.len();
    if n != 3 && n != 4 {
        return Err(BadRange { len: n });
    }
    let line_begin = one_based_exec(range[0]);
    let column_begin = one_based_exec(range[1]);
    let line_end = if n == 3 {
        line_begin
    } else {
        one_based_exec(range[2])
    };
    let last = range[n - 1] as u64;
    let column_end = if last < column_begin {
        column_begin
    } else {
        last
    };
    Ok(GleanRange { column_begin, column_end, line_begin, line_end })
}

} // verus!
