use vstd::prelude::*;
use crate::config::MongoDumpInstruction;

verus! {

/// The texts of a list of strings.
pub open spec fn texts(v: Seq<String>) -> Seq<Seq<char>> {
    v.map_values(|s: String| s@)
}

/// The options that every dump starts with.
pub open spec fn dump_base(instr: MongoDumpInstruction) -> Seq<Seq<char>> {
    seq!["--archive"@, "--gzip"@, "--uri="@ + instr.source_uri@, "--db="@ + instr.db_name@]
}

/// The arguments of `mongodump` for one collection, or for the whole database
/// but its excluded collections where `collection` is `None`.
pub open spec fn dump_args_spec(instr: MongoDumpInstruction, collection: Option<Seq<char>>) -> Seq<
    Seq<char>,
> {
    match collection {
        Some(c) => dump_base(instr).push("--collection="@ + c),
        None => dump_base(instr) + instr.excludes@.map_values(
            |e: String| "--excludeCollection="@ + e@,
        ),
    }
}

/// The arguments of `mongorestore`: it replaces the database named after the
/// source with the part's suffix.
pub open spec fn restore_args_spec(instr: MongoDumpInstruction, part: Seq<char>) -> Seq<Seq<char>> {
    seq![
        "--drop"@,
        "--uri="@ + instr.target_uri@,
        "--nsFrom="@ + instr.db_name@ + ".*"@,
        "--nsTo="@ + instr.db_name@ + "_"@ + part + ".*"@,
        "--gzip"@,
        "--archive"@,
    ]
}

fn joined(a: &str, b: &str) -> (r: String)
    ensures
        r@ == a@ + b@,
{
    let mut r = String::from_str(a);
    r.append(b);
    r
}

/// The arguments of `mongodump` for one collection, or for the whole database
/// but its excluded collections.
pub fn dump_args(instr: &MongoDumpInstruction, collection: Option<&String>) -> (r: Vec<String>)
    ensures
        texts(r@) == dump_args_spec(
            *instr,
            match collection {
                Some(c) => Some(c@),
                None => None,
            },
        ),
{
    let mut r: Vec<String> = Vec::new();
    r.push(String::from_str("--archive"));
    r.push(String::from_str("--gzip"));
    r.push(joined("--uri=", instr.source_uri.as_str()));
    r.push(joined("--db=", instr.db_name.as_str()));
    assert(texts(r@) =~= dump_base(*instr));
    match collection {
        Some(c) => {
            let ghost pre = r@;
            r.push(joined("--collection=", c.as_str()));
            assert(texts(r@) =~= texts(pre).push("--collection="@ + c@));
        },
        None => {
            let ghost ex = instr.excludes@.map_values(|e: String| "--excludeCollection="@ + e@);
            let mut i: usize = 0;
            while i < instr.excludes.len()
                invariant
                    i <= instr.excludes.len(),
                    ex == instr.excludes@.map_values(|e: String| "--excludeCollection="@ + e@),
                    texts(r@) == dump_base(*instr) + ex.subrange(0, i as int),
                decreases instr.excludes.len() - i,
            {
                let ghost pre = r@;
                r.push(joined("--excludeCollection=", instr.excludes[i].as_str()));
                assert(texts(r@) =~= texts(pre).push(ex[i as int]));
                assert(ex.subrange(0, i + 1) =~= ex.subrange(0, i as int).push(ex[i as int]));
                i = i + 1;
            }
            assert(ex.subrange(0, instr.excludes.len() as int) =~= ex);
        },
    }
    r
}

/// The arguments of `mongorestore` for the part named `part`.
pub fn restore_args(instr: &MongoDumpInstruction, part: &str) -> (r: Vec<String>)
    ensures
        texts(r@) == restore_args_spec(*instr, part@),
{
    let mut r: Vec<String> = Vec::new();
    r.push(String::from_str("--drop"));
    r.push(joined("--uri=", instr.target_uri.as_str()));
    let mut from = joined("--nsFrom=", instr.db_name.as_str());
    from.append(".*");
    r.push(from);
    let mut to = joined("--nsTo=", instr.db_name.as_str());
    to.append("_");
    to.append(part);
    to.append(".*");
    r.push(to);
    r.push(String::from_str("--gzip"));
    r.push(String::from_str("--archive"));
    assert(texts(r@) =~= restore_args_spec(*instr, part@));
    r
}

/// The `mongodump` argument lists of a copy: one per collection where
/// collections are named, else one for the whole database.
pub fn dump_plans(instr: &MongoDumpInstruction, collections: Option<&Vec<String>>) -> (r: Vec<
    Vec<String>,
>)
    ensures
        match collections {
            Some(cs) => r.len() == cs.len() && forall|i: int|
                0 <= i < cs.len() ==> texts(#[trigger] r[i]@) == dump_args_spec(
                    *instr,
                    Some(cs[i]@),
                ),
            None => r.len() == 1 && texts(r[0]@) == dump_args_spec(*instr, None),
        },
{
    let mut r: Vec<Vec<String>> = Vec::new();
    match collections {
        Some(cs) => {
            let mut i: usize = 0;
            while i < cs.len()
                invariant
                    i <= cs.len(),
                    r.len() == i,
                    forall|j: int|
                        0 <= j < i ==> texts(#[trigger] r[j]@) == dump_args_spec(
                            *instr,
                            Some(cs[j]@),
                        ),
                decreases cs.len() - i,
            {
                r.push(dump_args(instr, Some(&cs[i])));
                i = i + 1;
            }
        },
        None => {
            r.push(dump_args(instr, None));
        },
    }
    r
}

} // verus!
