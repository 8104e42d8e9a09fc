//! The values of a property list as plain data, and the mapping between a launchd
//! plist and the document that the standard editor edits.
use crate::domain::plist_document::{empty_doc, is_managed_key, is_standard_managed_key, DocView, StandardPlistDocument};
use crate::string_map::{assoc_insert, lemma_insert_greatest, StringMap};
use crate::text::{eq_str, str_views, to_chars, trim, trim_chars};
use vstd::prelude::*;

verus! {

/// A property-list value: the kinds the app reads, and `Other` for the rest
/// (reals, dates, data, uids).
#[derive(Debug)]
pub enum PlistValue {
    String(String),
    Boolean(bool),
    Integer(i128),
    Array(Vec<PlistValue>),
    Dictionary(Vec<(String, PlistValue)>),
    Other,
}

pub open spec fn as_string(v: PlistValue) -> Option<Seq<char>> {
    match v {
        PlistValue::String(s) => Some(s@),
        _ => None,
    }
}

pub open spec fn as_boolean(v: PlistValue) -> Option<bool> {
    match v {
        PlistValue::Boolean(b) => Some(b),
        _ => None,
    }
}

/// The value of an integer that fits in 64 unsigned bits.
pub open spec fn as_u64(v: PlistValue) -> Option<u64> {
    match v {
        PlistValue::Integer(n) => if 0 <= n <= u64::MAX {
            Some(n as u64)
        } else {
            None
        },
        _ => None,
    }
}

/// The value stored under `key` in a dictionary's entries, at its first occurrence.
pub open spec fn dict_get(d: Seq<(String, PlistValue)>, key: Seq<char>) -> Option<PlistValue>
    decreases d.len(),
{
    if d.len() == 0 {
        None
    } else if d[0].0@ == key {
        Some(d[0].1)
    } else {
        dict_get(d.drop_first(), key)
    }
}

/// The keys of a dictionary's entries, in order.
pub open spec fn dict_keys(d: Seq<(String, PlistValue)>) -> Seq<Seq<char>> {
    d.map_values(|e: (String, PlistValue)| e.0@)
}

pub open spec fn get_string(d: Seq<(String, PlistValue)>, key: Seq<char>) -> Option<Seq<char>> {
    match dict_get(d, key) {
        Some(v) => as_string(v),
        None => None,
    }
}

/// The strings among the items of an array, in order.
pub open spec fn string_items(a: Seq<PlistValue>) -> Seq<Seq<char>>
    decreases a.len(),
{
    if a.len() == 0 {
        Seq::empty()
    } else {
        let rest = string_items(a.drop_last());
        match as_string(a.last()) {
            Some(s) => rest.push(s),
            None => rest,
        }
    }
}

/// The string-valued entries of a dictionary stored into an empty map in order;
/// with `extra_only`, only the keys that the standard fields do not manage.
pub open spec fn string_entries(d: Seq<(String, PlistValue)>, extra_only: bool) -> Seq<
    (Seq<char>, Seq<char>),
>
    decreases d.len(),
{
    if d.len() == 0 {
        Seq::empty()
    } else {
        let rest = string_entries(d.drop_last(), extra_only);
        let k = d.last().0@;
        match as_string(d.last().1) {
            Some(s) => if extra_only && is_managed_key(k) {
                rest
            } else {
                assoc_insert(rest, k, s)
            },
            None => rest,
        }
    }
}

/// `KeepAlive` as a flag: a boolean as it is, a dictionary of conditions as set.
pub open spec fn keep_alive_flag(v: Option<PlistValue>) -> Option<bool> {
    match v {
        Some(PlistValue::Boolean(b)) => Some(b),
        Some(PlistValue::Dictionary(_)) => Some(true),
        _ => None,
    }
}

/// The document that the standard editor makes of a plist value.
pub open spec fn doc_of_value(v: PlistValue) -> DocView {
    match v {
        PlistValue::Dictionary(d) => DocView {
            label: match get_string(d@, "Label"@) {
                Some(s) => s,
                None => Seq::empty(),
            },
            program: match get_string(d@, "Program"@) {
                Some(s) => s,
                None => Seq::empty(),
            },
            program_arguments: match dict_get(d@, "ProgramArguments"@) {
                Some(PlistValue::Array(a)) => string_items(a@),
                _ => Seq::empty(),
            },
            run_at_load: match dict_get(d@, "RunAtLoad"@) {
                Some(PlistValue::Boolean(b)) => b,
                _ => false,
            },
            keep_alive: match keep_alive_flag(dict_get(d@, "KeepAlive"@)) {
                Some(b) => b,
                None => false,
            },
            start_interval: match dict_get(d@, "StartInterval"@) {
                Some(x) => as_u64(x),
                None => None,
            },
            working_directory: get_string(d@, "WorkingDirectory"@),
            environment_variables: match dict_get(d@, "EnvironmentVariables"@) {
                Some(PlistValue::Dictionary(e)) => string_entries(e@, false),
                _ => Seq::empty(),
            },
            extra_string_keys: string_entries(d@, true),
        },
        _ => empty_doc(),
    }
}

fn dict_lookup<'a>(d: &'a Vec<(String, PlistValue)>, key: &str) -> (r: Option<&'a PlistValue>)
    ensures
        r matches Some(x) ==> dict_get(d@, key@) == Some(*x),
        r is None ==> dict_get(d@, key@) is None,
{
    let mut i: usize = 0;
    assert(d@.subrange(0, d.len() as int) == d@);
    while i < d.len()
        invariant
            i <= d.len(),
            dict_get(d@, key@) == dict_get(d@.subrange(i as int, d.len() as int), key@),
        decreases d.len() - i,
    {
        let k = to_chars(d[i].0.as_str());
        let ghost rest = d@.subrange(i as int, d.len() as int);
        assert(rest.drop_first() == d@.subrange(i + 1, d.len() as int));
        assert(rest[0] == d@[i as int]);
        if eq_str(&k, key) {
            return Some(&d[i].1);
        }
        i = i + 1;
    }
    None
}

fn lookup_string(d: &Vec<(String, PlistValue)>, key: &str) -> (r: Option<String>)
    ensures
        r matches Some(s) ==> get_string(d@, key@) == Some(s@),
        r is None ==> get_string(d@, key@) is None,
{
    match dict_lookup(d, key) {
        Some(PlistValue::String(s)) => Some(s.clone()),
        _ => None,
    }
}

fn array_strings(a: &Vec<PlistValue>) -> (r: Vec<String>)
    ensures
        str_views(r@) == string_items(a@),
{
    let mut r: Vec<String> = Vec::new();
    let mut i: usize = 0;
    while i < a.len()
        invariant
            i <= a.len(),
            str_views(r@) == string_items(a@.subrange(0, i as int)),
        decreases a.len() - i,
    {
        assert(a@.subrange(0, i + 1).drop_last() == a@.subrange(0, i as int));
        match &a[i] {
            PlistValue::String(s) => {
                let ghost old_r = r@;
                r.push(s.clone());
                proof {
                    crate::text::lemma_str_views_push(old_r, r@.last());
                }
            },
            _ => {},
        }
        i = i + 1;
    }
    assert(a@.subrange(0, a.len() as int) == a@);
    r
}

fn dict_strings(d: &Vec<(String, PlistValue)>, extra_only: bool) -> (r: StringMap)
    ensures
        r@ == string_entries(d@, extra_only),
        r.well_formed(),
{
    let mut m = StringMap::new();
    let mut i: usize = 0;
    while i < d.len()
        invariant
            i <= d.len(),
            m@ == string_entries(d@.subrange(0, i as int), extra_only),
            m.well_formed(),
        decreases d.len() - i,
    {
        assert(d@.subrange(0, i + 1).drop_last() == d@.subrange(0, i as int));
        assert(d@.subrange(0, i + 1).last() == d@[i as int]);
        match &d[i].1 {
            PlistValue::String(s) => {
                if !(extra_only && is_standard_managed_key(d[i].0.as_str())) {
                    m.insert(d[i].0.clone(), s.clone());
                }
            },
            _ => {},
        }
        i = i + 1;
    }
    assert(d@.subrange(0, d.len() as int) == d@);
    m
}

/// The document that the standard editor makes of a plist value: the managed keys of
/// a top-level dictionary read into their fields, the other string keys kept aside.
pub fn standard_document_from_value(value: &PlistValue) -> (r: StandardPlistDocument)
    ensures
        r@ == doc_of_value(*value),
        r.environment_variables.well_formed(),
        r.extra_string_keys.well_formed(),
{
    let d = match value {
        PlistValue::Dictionary(d) => d,
        _ => {
            return StandardPlistDocument::default();
        },
    };
    let label = match lookup_string(d, "Label") {
        Some(s) => s,
        None => String::new(),
    };
    let program = match lookup_string(d, "Program") {
        Some(s) => s,
        None => String::new(),
    };
    let program_arguments = match dict_lookup(d, "ProgramArguments") {
        Some(PlistValue::Array(a)) => array_strings(a),
        _ => {
            let v: Vec<String> = Vec::new();
            assert(str_views(v@) =~= Seq::<Seq<char>>::empty());
            v
        },
    };
    let run_at_load = match dict_lookup(d, "RunAtLoad") {
        Some(PlistValue::Boolean(b)) => *b,
        _ => false,
    };
    let keep_alive = match dict_lookup(d, "KeepAlive") {
        Some(PlistValue::Boolean(b)) => *b,
        Some(PlistValue::Dictionary(_)) => true,
        _ => false,
    };
    let start_interval = match dict_lookup(d, "StartInterval") {
        Some(PlistValue::Integer(n)) => if 0 <= *n && *n <= 0xffff_ffff_ffff_ffffi128 {
            Some(*n as u64)
        } else {
            None
        },
        _ => None,
    };
    let working_directory = lookup_string(d, "WorkingDirectory");
    let environment_variables = match dict_lookup(d, "EnvironmentVariables") {
        Some(PlistValue::Dictionary(e)) => dict_strings(e, false),
        _ => StringMap::new(),
    };
    let extra_string_keys = dict_strings(d, true);
    StandardPlistDocument {
        label,
        program,
        program_arguments,
        run_at_load,
        keep_alive,
        start_interval,
        working_directory,
        environment_variables,
        extra_string_keys,
    }
}


proof fn lemma_dict_get_push(s: Seq<(String, PlistValue)>, e: (String, PlistValue), k: Seq<char>)
    ensures
        dict_get(s.push(e), k) == (if dict_get(s, k) is Some {
            dict_get(s, k)
        } else if e.0@ == k {
            Some(e.1)
        } else {
            None
        }),
    decreases s.len(),
{
    if s.len() > 0 {
        assert(s.push(e)[0] == s[0]);
        assert(s.push(e).drop_first() == s.drop_first().push(e));
        lemma_dict_get_push(s.drop_first(), e, k);
    } else {
        assert(s.push(e)[0] == e);
        assert(s.push(e).drop_first().len() == 0);
        assert(dict_get(s.push(e).drop_first(), k) is None);
        assert(dict_get(s, k) is None);
    }
}

/// The keys a document's plist holds, in the order they are written.
pub open spec fn doc_keys(d: DocView) -> Seq<Seq<char>> {
    seq!["Label"@, "Program"@] + (if d.program_arguments.len() > 0 {
        seq!["ProgramArguments"@]
    } else {
        Seq::empty()
    }) + seq!["RunAtLoad"@, "KeepAlive"@] + (if d.start_interval is Some {
        seq!["StartInterval"@]
    } else {
        Seq::empty()
    }) + (if d.working_directory matches Some(w) && trim(w).len() > 0 {
        seq!["WorkingDirectory"@]
    } else {
        Seq::empty()
    }) + (if d.environment_variables.len() > 0 {
        seq!["EnvironmentVariables"@]
    } else {
        Seq::empty()
    }) + written_extra_keys(d.extra_string_keys)
}

/// The extra keys that are written: those the standard fields do not manage, and not blank.
pub open spec fn written_extra_keys(e: Seq<(Seq<char>, Seq<char>)>) -> Seq<Seq<char>>
    decreases e.len(),
{
    if e.len() == 0 {
        Seq::empty()
    } else {
        let rest = written_extra_keys(e.drop_last());
        let k = e.last().0;
        if !is_managed_key(k) && trim(k).len() > 0 {
            rest.push(k)
        } else {
            rest
        }
    }
}

/// A document that survives being written to a plist and read back: both maps well
/// formed, a working directory that is not blank, and extra keys that are neither
/// managed by the standard fields nor blank.
pub open spec fn survives_roundtrip(d: DocView) -> bool {
    &&& crate::string_map::keys_ascending(d.environment_variables)
    &&& crate::string_map::keys_ascending(d.extra_string_keys)
    &&& (d.working_directory matches Some(w) ==> trim(w).len() > 0)
    &&& forall|i: int|
        0 <= i < d.extra_string_keys.len() ==> !is_managed_key(
            #[trigger] d.extra_string_keys[i].0,
        ) && trim(d.extra_string_keys[i].0).len() > 0
}

fn string_value(s: &String) -> (r: PlistValue)
    ensures
        as_string(r) == Some(s@),
{
    PlistValue::String(s.clone())
}

fn map_to_dictionary(m: &StringMap) -> (r: Vec<(String, PlistValue)>)
    ensures
        dict_keys(r@) == crate::string_map::assoc_keys(m@),
        m.well_formed() ==> string_entries(r@, false) == m@,
{
    let mut r: Vec<(String, PlistValue)> = Vec::new();
    let mut i: usize = 0;
    while i < m.len()
        invariant
            i <= m@.len(),
            dict_keys(r@) == crate::string_map::assoc_keys(m@).subrange(0, i as int),
            m.well_formed() ==> string_entries(r@, false) == m@.subrange(0, i as int),
        decreases m@.len() - i,
    {
        let k = m.key_at(i).clone();
        let v = string_value(m.value_at(i));
        let ghost old_r = r@;
        r.push((k, v));
        assert(r@.drop_last() == old_r);
        assert(dict_keys(r@) =~= dict_keys(old_r).push(k@));
        assert(crate::string_map::assoc_keys(m@)[i as int] == m@[i as int].0);
        assert(dict_keys(r@) =~= crate::string_map::assoc_keys(m@).subrange(0, i + 1));
        proof {
            if m.well_formed() {
                let pre = m@.subrange(0, i as int);
                assert forall|j: int| 0 <= j < pre.len() implies crate::text::seq_lt(
                    #[trigger] pre[j].0,
                    m@[i as int].0,
                ) by {
                    assert(pre[j] == m@[j]);
                }
                lemma_insert_greatest(pre, m@[i as int].0, m@[i as int].1);
                assert(m@.subrange(0, i + 1) =~= pre.push(m@[i as int]));
            }
        }
        i = i + 1;
    }
    assert(crate::string_map::assoc_keys(m@).subrange(0, i as int) =~= crate::string_map::assoc_keys(m@));
    assert(m@.subrange(0, i as int) == m@);
    r
}


proof fn lemma_dict_get_push_all(s: Seq<(String, PlistValue)>, e: (String, PlistValue))
    ensures
        forall|k: Seq<char>|
            #[trigger] dict_get(s.push(e), k) == (if dict_get(s, k) is Some {
                dict_get(s, k)
            } else if e.0@ == k {
                Some(e.1)
            } else {
                None
            }),
{
    assert forall|k: Seq<char>|
        #[trigger] dict_get(s.push(e), k) == (if dict_get(s, k) is Some {
            dict_get(s, k)
        } else if e.0@ == k {
            Some(e.1)
        } else {
            None
        }) by {
        lemma_dict_get_push(s, e, k);
    }
}

/// Appends an entry, keeping track of what lookups, keys and string entries become.
fn push_entry(d: &mut Vec<(String, PlistValue)>, k: String, v: PlistValue)
    ensures
        final(d)@ == old(d)@.push((k, v)),
        dict_keys(final(d)@) == dict_keys(old(d)@).push(k@),
        forall|q: Seq<char>|
            #[trigger] dict_get(final(d)@, q) == (if dict_get(old(d)@, q) is Some {
                dict_get(old(d)@, q)
            } else if k@ == q {
                Some(v)
            } else {
                None
            }),
        forall|x: bool|
            #[trigger] string_entries(final(d)@, x) == (match as_string(v) {
                Some(s) => if x && is_managed_key(k@) {
                    string_entries(old(d)@, x)
                } else {
                    assoc_insert(string_entries(old(d)@, x), k@, s)
                },
                None => string_entries(old(d)@, x),
            }),
{
    let ghost e = (k, v);
    d.push((k, v));
    proof {
        lemma_dict_get_push_all(old(d)@, e);
        assert(d@.drop_last() == old(d)@);
        assert(dict_keys(d@) =~= dict_keys(old(d)@).push(k@));
    }
}

fn literal(s: &str) -> (r: String)
    ensures
        r@ == s@,
{
    crate::text::from_chars(to_chars(s).as_slice())
}

proof fn lemma_managed_keys_distinct()
    ensures
        "Label"@ != "Program"@,
        "Label"@ != "ProgramArguments"@,
        "Label"@ != "RunAtLoad"@,
        "Label"@ != "KeepAlive"@,
        "Label"@ != "StartInterval"@,
        "Label"@ != "WorkingDirectory"@,
        "Label"@ != "EnvironmentVariables"@,
        "Program"@ != "ProgramArguments"@,
        "Program"@ != "RunAtLoad"@,
        "Program"@ != "KeepAlive"@,
        "Program"@ != "StartInterval"@,
        "Program"@ != "WorkingDirectory"@,
        "Program"@ != "EnvironmentVariables"@,
        "ProgramArguments"@ != "RunAtLoad"@,
        "ProgramArguments"@ != "KeepAlive"@,
        "ProgramArguments"@ != "StartInterval"@,
        "ProgramArguments"@ != "WorkingDirectory"@,
        "ProgramArguments"@ != "EnvironmentVariables"@,
        "RunAtLoad"@ != "KeepAlive"@,
        "RunAtLoad"@ != "StartInterval"@,
        "RunAtLoad"@ != "WorkingDirectory"@,
        "RunAtLoad"@ != "EnvironmentVariables"@,
        "KeepAlive"@ != "StartInterval"@,
        "KeepAlive"@ != "WorkingDirectory"@,
        "KeepAlive"@ != "EnvironmentVariables"@,
        "StartInterval"@ != "WorkingDirectory"@,
        "StartInterval"@ != "EnvironmentVariables"@,
        "WorkingDirectory"@ != "EnvironmentVariables"@,
{
    reveal_strlit("Label");
    reveal_strlit("Program");
    reveal_strlit("ProgramArguments");
    reveal_strlit("RunAtLoad");
    reveal_strlit("KeepAlive");
    reveal_strlit("StartInterval");
    reveal_strlit("WorkingDirectory");
    reveal_strlit("EnvironmentVariables");
    assert("Label"@.len() == 5 && "Program"@.len() == 7 && "ProgramArguments"@.len() == 16);
    assert("RunAtLoad"@.len() == 9 && "KeepAlive"@.len() == 9 && "StartInterval"@.len() == 13);
    assert("WorkingDirectory"@.len() == 16 && "EnvironmentVariables"@.len() == 20);
    assert("RunAtLoad"@[0] != "KeepAlive"@[0]);
    assert("ProgramArguments"@[0] != "WorkingDirectory"@[0]);
}

fn arguments_array(args: &Vec<String>) -> (r: Vec<PlistValue>)
    ensures
        string_items(r@) == str_views(args@),
{
    let mut r: Vec<PlistValue> = Vec::new();
    let mut i: usize = 0;
    while i < args.len()
        invariant
            i <= args.len(),
            string_items(r@) == str_views(args@).subrange(0, i as int),
        decreases args.len() - i,
    {
        let v = string_value(&args[i]);
        let ghost old_r = r@;
        r.push(v);
        assert(r@.drop_last() == old_r);
        assert(str_views(args@).subrange(0, i + 1) =~= str_views(args@).subrange(0, i as int).push(
            args@[i as int]@,
        ));
        i = i + 1;
    }
    assert(str_views(args@).subrange(0, i as int) == str_views(args@));
    r
}

/// The plist value that a document is written as: the standard fields under their
/// keys (the optional ones only where set), then the extra string keys that are not
/// managed and not blank.
#[verifier::spinoff_prover]
#[verifier::rlimit(60)]
pub fn standard_document_to_value(document: &StandardPlistDocument) -> (r: PlistValue)
    ensures
        r matches PlistValue::Dictionary(d) && dict_keys(d@) == doc_keys(document@),
        survives_roundtrip(document@) ==> doc_of_value(r) == document@,
{
    proof {
        lemma_managed_keys_distinct();
    }
    let ghost doc = document@;
    let mut d: Vec<(String, PlistValue)> = Vec::new();
    assert(dict_keys(d@) =~= Seq::<Seq<char>>::empty());
    push_entry(&mut d, literal("Label"), string_value(&document.label));
    push_entry(&mut d, literal("Program"), string_value(&document.program));
    if document.program_arguments.len() > 0 {
        let a = arguments_array(&document.program_arguments);
        push_entry(&mut d, literal("ProgramArguments"), PlistValue::Array(a));
    }
    push_entry(&mut d, literal("RunAtLoad"), PlistValue::Boolean(document.run_at_load));
    push_entry(&mut d, literal("KeepAlive"), PlistValue::Boolean(document.keep_alive));
    if let Some(n) = document.start_interval {
        push_entry(&mut d, literal("StartInterval"), PlistValue::Integer(n as i128));
    }
    if let Some(w) = &document.working_directory {
        let wc = to_chars(w.as_str());
        if trim_chars(&wc).len() > 0 {
            push_entry(&mut d, literal("WorkingDirectory"), string_value(w));
        }
    }
    if !document.environment_variables.is_empty() {
        let e = map_to_dictionary(&document.environment_variables);
        push_entry(&mut d, literal("EnvironmentVariables"), PlistValue::Dictionary(e));
    }
    let ghost fixed = d@;
    let ghost fixed_keys = dict_keys(d@);
    assert(string_entries(fixed, true) =~= Seq::<(Seq<char>, Seq<char>)>::empty());
    assert(fixed_keys =~= doc_keys(doc).subrange(0, fixed_keys.len() as int));
    let extras = &document.extra_string_keys;
    let mut i: usize = 0;
    while i < extras.len()
        invariant
            i <= extras@.len(),
            doc == document@,
            extras@ == doc.extra_string_keys,
            dict_keys(d@) == fixed_keys + written_extra_keys(extras@.subrange(0, i as int)),
            forall|q: Seq<char>| is_managed_key(q) ==> #[trigger] dict_get(d@, q) == dict_get(fixed, q),
            survives_roundtrip(doc) ==> string_entries(d@, true) == extras@.subrange(0, i as int),
        decreases extras@.len() - i,
    {
        let k = extras.key_at(i);
        let kc = to_chars(k.as_str());
        let ghost pre = extras@.subrange(0, i as int);
        assert(extras@.subrange(0, i + 1).drop_last() == pre);
        assert(extras@.subrange(0, i + 1).last() == extras@[i as int]);
        if !is_standard_managed_key(k.as_str()) && trim_chars(&kc).len() > 0 {
            let v = string_value(extras.value_at(i));
            push_entry(&mut d, k.clone(), v);
            proof {
                if survives_roundtrip(doc) {
                    assert forall|j: int| 0 <= j < pre.len() implies crate::text::seq_lt(
                        #[trigger] pre[j].0,
                        extras@[i as int].0,
                    ) by {
                        assert(pre[j] == extras@[j]);
                    }
                    lemma_insert_greatest(pre, extras@[i as int].0, extras@[i as int].1);
                    assert(extras@.subrange(0, i + 1) =~= pre.push(extras@[i as int]));
                }
            }
        } else {
            proof {
                if survives_roundtrip(doc) {
                    assert(!is_managed_key(doc.extra_string_keys[i as int].0));
                }
            }
        }
        i = i + 1;
    }
    proof {
        assert(extras@.subrange(0, extras@.len() as int) == extras@);
        assert(dict_keys(d@) =~= doc_keys(doc));
        if survives_roundtrip(doc) {
            let v = PlistValue::Dictionary(d);
            assert(doc_of_value(v).program_arguments =~= doc.program_arguments);
            assert(doc_of_value(v).environment_variables =~= doc.environment_variables);
            assert(doc_of_value(v).extra_string_keys =~= doc.extra_string_keys);
        }
    }
    PlistValue::Dictionary(d)
}

} // verus!
