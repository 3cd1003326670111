//! Mapping of the stored graphics-API version string to a human label.
//!
//! A missing value yields `"Unknown"`; a present value is looked up in an
//! explicit table of known version literals; a present but unrecognized value
//! yields `"Unknown (<raw value>)"`.

use vstd::prelude::*;
use vstd::string::StringExecFns;

verus! {

/// The table of known stored version strings and their labels, in order.
pub open spec fn dx_table() -> Seq<(Seq<char>, Seq<char>)> {
    seq![
        ("4.09.00.0904"@, "DirectX 9.0c"@),
        ("4.10.0000.0904"@, "DirectX 10"@),
        ("4.11.0000.0904"@, "DirectX 11"@),
        ("4.12.0000.0904"@, "DirectX 12"@),
    ]
}

/// First label paired with `key` in `t`, if any.
pub open spec fn table_lookup(t: Seq<(Seq<char>, Seq<char>)>, key: Seq<char>) -> Option<Seq<char>>
    decreases t.len(),
{
    if t.len() == 0 {
        None
    } else if t[0].0 == key {
        Some(t[0].1)
    } else {
        table_lookup(t.drop_first(), key)
    }
}

/// The view of an optional stored string.
pub open spec fn stored_view(stored: Option<String>) -> Option<Seq<char>> {
    match stored {
        Some(v) => Some(v@),
        None => None,
    }
}

/// The label returned for a stored version value: `"Unknown"` when absent,
/// the table's label when known, `"Unknown (<raw>)"` otherwise.
pub open spec fn dx_label_of(stored: Option<Seq<char>>) -> Seq<char> {
    match stored {
        None => "Unknown"@,
        Some(v) => match table_lookup(dx_table(), v) {
            Some(label) => label,
            None => "Unknown ("@ + v + ")"@,
        },
    }
}

/// The version table as owned strings, entry for entry equal to `dx_table`.
pub fn dx_version_table() -> (t: Vec<(String, String)>)
    ensures
        t@.len() == dx_table().len(),
        forall|i: int|
            0 <= i < t@.len() ==> t@[i].0@ == dx_table()[i].0 && t@[i].1@ == dx_table()[i].1,
{
    let mut t: Vec<(String, String)> = Vec::new();
    t.push((String::from_str("4.09.00.0904"), String::from_str("DirectX 9.0c")));
    t.push((String::from_str("4.10.0000.0904"), String::from_str("DirectX 10")));
    t.push((String::from_str("4.11.0000.0904"), String::from_str("DirectX 11")));
    t.push((String::from_str("4.12.0000.0904"), String::from_str("DirectX 12")));
    t
}

/// Human label for the stored graphics-API version value, per `dx_label_of`.
pub fn get_directx_version(stored: &Option<String>) -> (r: String)
    ensures
        r@ == dx_label_of(stored_view(*stored)),
{
    match stored {
        None => String::from_str("Unknown"),
        Some(v) => {
            let table = dx_version_table();
            let n = table.len();
            let mut i: usize = 0;
            proof {
                assert(dx_table().skip(0) =~= dx_table());
            }
            while i < n
                invariant
                    *stored == Some(*v),
                    n == table@.len(),
                    0 <= i <= n,
                    table@.len() == dx_table().len(),
                    forall|j: int|
                        0 <= j < table@.len() ==> table@[j].0@ == dx_table()[j].0 && table@[j].1@
                            == dx_table()[j].1,
                    table_lookup(dx_table().skip(i as int), v@) == table_lookup(dx_table(), v@),
                decreases n - i,
            {
                let hit: bool = *v == table[i].0;
                if hit {
                    proof {
                        assert(dx_table().skip(i as int)[0] == dx_table()[i as int]);
                        assert(table_lookup(dx_table().skip(i as int), v@) == Some(
                            dx_table()[i as int].1,
                        ));
                        assert(stored_view(*stored) == Some(v@));
                        assert(dx_label_of(Some(v@)) == dx_table()[i as int].1);
                    }
                    return table[i].1.clone();
                }
                proof {
                    assert(dx_table().skip(i as int)[0] == dx_table()[i as int]);
                    assert(dx_table().skip(i as int).drop_first() =~= dx_table().skip(i + 1));
                }
                i += 1;
            }
            proof {
                assert(dx_table().skip(4) =~= Seq::<(Seq<char>, Seq<char>)>::empty());
            }
            let mut s = String::from_str("Unknown (");
            s.append(v.as_str());
            s.append(")");
            proof {
                assert(s@ =~= "Unknown ("@ + v@ + ")"@);
            }
            s
        },
    }
}

} // verus!
