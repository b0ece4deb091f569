//! The boot session decoder: tabular boot-list output into `BootInfo`
//! entries, one per acceptable line.

use crate::boot_info::{boot_views, BootInfo, BootInfoV};
use crate::text::{
    lines_of, parse_i32_or, parse_i32_or_default, split_lines, split_ws, str_views, tokenize,
};
use vstd::prelude::*;

verus! {

/// The boot session one boot-list line yields, if it has enough
/// columns: offset, identifier, the two date parts of the first entry,
/// and — only with at least seven columns — the two date parts of the
/// last entry. An offset that does not parse defaults to zero.
pub open spec fn boot_of_tokens(toks: Seq<Seq<char>>) -> Option<BootInfoV> {
    if toks.len() >= 5 {
        Option::Some(
            BootInfoV {
                boot_id: toks[1],
                boot_offset: parse_i32_or(toks[0], 0) as int,
                first_entry: toks[2] + " "@ + toks[3],
                last_entry: if toks.len() >= 7 {
                    toks[5] + " "@ + toks[6]
                } else {
                    "N/A"@
                },
            },
        )
    } else {
        Option::None
    }
}

/// Boot sessions of a sequence of boot-list lines, in line order; a
/// line with too few columns is silently dropped.
pub open spec fn boots_of_lines(lines: Seq<Seq<char>>) -> Seq<BootInfoV>
    decreases lines.len(),
{
    if lines.len() == 0 {
        Seq::empty()
    } else {
        let rest = boots_of_lines(lines.drop_first());
        match boot_of_tokens(split_ws(lines[0])) {
            Option::Some(b) => seq![b] + rest,
            Option::None => rest,
        }
    }
}

/// Boot sessions of the whole boot-list output.
pub open spec fn spec_boot_list(text: Seq<char>) -> Seq<BootInfoV> {
    boots_of_lines(split_lines(text))
}

/// Decodes one boot-list line, accepted only with at least five
/// whitespace-separated columns.
pub fn decode_boot_line(line: &str) -> (r: Option<BootInfo>)
    ensures
        (match r {
            Option::Some(b) => boot_of_tokens(split_ws(line@)) == Option::Some(b@),
            Option::None => boot_of_tokens(split_ws(line@)) == Option::None::<BootInfoV>,
        }),
{
    let toks = tokenize(line);
    let ghost tv = split_ws(line@);
    proof {
        assert(tv.len() == toks@.len());
    }
    if toks.len() >= 5 {
        proof {
            assert(tv[0] == toks@[0]@);
            assert(tv[1] == toks@[1]@);
            assert(tv[2] == toks@[2]@);
            assert(tv[3] == toks@[3]@);
        }
        let boot_offset = parse_i32_or_default(toks[0].as_str(), 0);
        let boot_id = toks[1].clone();
        let first_entry = toks[2].clone().concat(" ").concat(toks[3].as_str());
        let last_entry = if toks.len() >= 7 {
            proof {
                assert(tv[5] == toks@[5]@);
                assert(tv[6] == toks@[6]@);
            }
            toks[5].clone().concat(" ").concat(toks[6].as_str())
        } else {
            String::from_str("N/A")
        };
        Option::Some(BootInfo { boot_id, boot_offset, first_entry, last_entry })
    } else {
        Option::None
    }
}

/// Decodes the full tabular output of the boot-listing query: lines
/// with fewer than five columns are dropped without aborting the rest,
/// and output order follows input line order.
pub fn parse_boot_list(text: &str) -> (r: Vec<BootInfo>)
    ensures
        boot_views(r@) == spec_boot_list(text@),
{
    let lines = lines_of(text);
    let ghost lv = str_views(lines@);
    let mut out: Vec<BootInfo> = Vec::new();
    let mut i: usize = 0;
    proof {
        assert(lv.skip(0) =~= lv);
        assert(boot_views(out@) =~= Seq::<BootInfoV>::empty());
        assert(boot_views(out@) + boots_of_lines(lv) =~= boots_of_lines(lv));
    }
    while i < lines.len()
        invariant
            i <= lines.len(),
            lv == str_views(lines@),
            boot_views(out@) + boots_of_lines(lv.skip(i as int)) == boots_of_lines(lv),
        decreases lines.len() - i,
    {
        let line = &lines[i];
        proof {
            assert(lv.skip(i as int).drop_first() =~= lv.skip(i + 1));
            assert(lv.skip(i as int)[0] == lv[i as int]);
            assert(lv[i as int] == line@);
        }
        match decode_boot_line(line.as_str()) {
            Option::Some(b) => {
                proof {
                    assert(boot_views(out@.push(b)) =~= boot_views(out@) + seq![b@]);
                    assert(boot_views(out@) + (seq![b@] + boots_of_lines(lv.skip(i + 1)))
                        =~= (boot_views(out@) + seq![b@]) + boots_of_lines(lv.skip(i + 1)));
                }
                out.push(b);
            },
            Option::None => {},
        }
        i = i + 1;
    }
    proof {
        assert(lv.skip(lines@.len() as int).len() == 0);
        assert(boot_views(out@) + Seq::<BootInfoV>::empty() =~= boot_views(out@));
    }
    out
}

} // verus!
