//! The column layout of the enhanced CSV.
use vstd::prelude::*;

verus! {

/// The fixed leading columns of the enhanced CSV.
pub open spec fn base_columns() -> Seq<Seq<char>> {
    seq!["timestamp"@, "open"@, "high"@, "low"@, "close"@, "volume"@]
}

/// The header of the enhanced CSV: the bar columns, then one column per indicator.
pub fn header_record(indicator_names: &Vec<String>) -> (r: Vec<String>)
    ensures
        r@.map_values(|s: String| s@) == base_columns() + indicator_names@.map_values(|s: String| s@),
{
    let mut header: Vec<String> = Vec::new();
    header.push("timestamp".to_owned());
    header.push("open".to_owned());
    header.push("high".to_owned());
    header.push("low".to_owned());
    header.push("close".to_owned());
    header.push("volume".to_owned());
    let ghost names = indicator_names@.map_values(|s: String| s@);
    proof {
        assert(header@.map_values(|s: String| s@) =~= base_columns());
    }
    let mut i: usize = 0;
    while i < indicator_names.len()
        invariant
            i <= indicator_names@.len(),
            names == indicator_names@.map_values(|s: String| s@),
            header@.map_values(|s: String| s@) =~= base_columns() + names.take(i as int),
        decreases indicator_names@.len() - i,
    {
        let ghost before = header@;
        let c = indicator_names[i].clone();
        header.push(c);
        proof {
            assert(header@ == before.push(c));
            assert(header@.map_values(|s: String| s@) =~= before.map_values(|s: String| s@).push(c@));
            assert(names.take(i + 1) =~= names.take(i as int).push(names[i as int]));
            assert(header@.map_values(|s: String| s@) =~= base_columns() + names.take(i + 1));
        }
        i = i + 1;
    }
    proof {
        assert(names.take(i as int) =~= names);
    }
    header
}

} // verus!
