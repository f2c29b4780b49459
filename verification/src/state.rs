//! The snapshot written on interrupt and read back on resume.
//!
//! A snapshot is one structured-text object with the keys `scans`,
//! `responses` and `config`: every known scan as `{id, url, scan_type,
//! complete}`, every recorded response, and the configuration embedded as
//! the text the configuration layer serialized it to. This module defines
//! the format once, as functions on character sequences — the writer and
//! the reader are both proved against it, and reading back what was
//! written recovers the fields exactly.

use crate::codec::{
    chars_to_string, dec, jstr, lemma_sparse_jstr_of, lemma_sparse_jstr_shrinks,
    lemma_sparse_lit_prefix, parse_jstr_at, parse_lit_at, push_jstr, push_str_chars, push_u64,
    sparse_jstr, sparse_lit, str_to_chars, suffix,
};
use crate::registry::{FeroxResponse, FeroxResponses, FeroxScans};
use crate::scan::ScanType;
use vstd::prelude::*;
use vstd::string::*;

verus! {

/// The running configuration, carried as the text the configuration layer
/// serialized it to: this core embeds and recovers it whole, and reads
/// nothing inside it.
#[derive(Debug)]
pub struct Configuration {
    /// The configuration's serialized form.
    pub text: String,
}

impl Clone for Configuration {
    /// A copy carrying the same serialized form.
    fn clone(&self) -> (r: Self)
        ensures
            r == *self,
    {
        Configuration { text: self.text.clone() }
    }
}

/// The four serialized fields of one scan record.
pub ghost struct ScanFields {
    /// The scan's identifier.
    pub id: Seq<char>,
    /// The scanned URL.
    pub url: Seq<char>,
    /// The type of scan.
    pub scan_type: ScanType,
    /// Whether the scan had completed.
    pub complete: bool,
}

/// Everything a snapshot carries: the scans' fields, the responses'
/// URLs, and the configuration text.
pub ghost struct StateFields {
    /// One entry per known scan.
    pub scans: Seq<ScanFields>,
    /// One URL per recorded response.
    pub responses: Seq<Seq<char>>,
    /// The embedded configuration text.
    pub config: Seq<char>,
}

/// The serialized name of a scan type.
pub open spec fn type_text(t: ScanType) -> Seq<char> {
    match t {
        ScanType::File => "File"@,
        ScanType::Directory => "Directory"@,
    }
}

/// The scan type a serialized name denotes, if any.
pub open spec fn scan_type_of(s: Seq<char>) -> Option<ScanType> {
    if s == "File"@ {
        Some(ScanType::File)
    } else if s == "Directory"@ {
        Some(ScanType::Directory)
    } else {
        None
    }
}

/// The serialized form of a boolean.
pub open spec fn bool_text(b: bool) -> Seq<char> {
    if b {
        "true"@
    } else {
        "false"@
    }
}

/// Read a serialized boolean.
pub open spec fn sparse_bool(v: Seq<char>) -> Option<(bool, Seq<char>)> {
    if sparse_lit(v, "true"@) is Some {
        Some((true, sparse_lit(v, "true"@).unwrap()))
    } else if sparse_lit(v, "false"@) is Some {
        Some((false, sparse_lit(v, "false"@).unwrap()))
    } else {
        None
    }
}

/// One serialized scan record.
pub open spec fn emit_scan(f: ScanFields) -> Seq<char> {
    "{\"id\":"@ + jstr(f.id) + ",\"url\":"@ + jstr(f.url) + ",\"scan_type\":"@ + jstr(
        type_text(f.scan_type),
    ) + ",\"complete\":"@ + bool_text(f.complete) + "}"@
}

/// The serialized scan records joined by commas.
pub open spec fn emit_scan_items(fs: Seq<ScanFields>) -> Seq<char>
    decreases fs.len(),
{
    if fs.len() == 0 {
        Seq::empty()
    } else if fs.len() == 1 {
        emit_scan(fs[0])
    } else {
        emit_scan(fs[0]) + seq![','] + emit_scan_items(fs.drop_first())
    }
}

/// The serialized scans array.
pub open spec fn emit_scans_arr(fs: Seq<ScanFields>) -> Seq<char> {
    "["@ + emit_scan_items(fs) + "]"@
}

/// One serialized response record.
pub open spec fn emit_resp(url: Seq<char>) -> Seq<char> {
    "{\"url\":"@ + jstr(url) + "}"@
}

/// The serialized response records joined by commas.
pub open spec fn emit_resp_items(us: Seq<Seq<char>>) -> Seq<char>
    decreases us.len(),
{
    if us.len() == 0 {
        Seq::empty()
    } else if us.len() == 1 {
        emit_resp(us[0])
    } else {
        emit_resp(us[0]) + seq![','] + emit_resp_items(us.drop_first())
    }
}

/// The serialized responses array.
pub open spec fn emit_resps_arr(us: Seq<Seq<char>>) -> Seq<char> {
    "["@ + emit_resp_items(us) + "]"@
}

/// The whole snapshot: the scans array, the responses array, and the
/// configuration text embedded verbatim.
pub open spec fn emit_state(f: StateFields) -> Seq<char> {
    "{\"scans\":"@ + emit_scans_arr(f.scans) + ",\"responses\":"@ + emit_resps_arr(f.responses)
        + ",\"config\":"@ + f.config + "}"@
}

/// Read one serialized scan record.
pub open spec fn sparse_scan_obj(v: Seq<char>) -> Option<(ScanFields, Seq<char>)> {
    match sparse_lit(v, "{\"id\":"@) {
        None => None,
        Some(v1) => match sparse_jstr(v1) {
            None => None,
            Some((id, v2)) => match sparse_lit(v2, ",\"url\":"@) {
                None => None,
                Some(v3) => match sparse_jstr(v3) {
                    None => None,
                    Some((url, v4)) => match sparse_lit(v4, ",\"scan_type\":"@) {
                        None => None,
                        Some(v5) => match sparse_jstr(v5) {
                            None => None,
                            Some((ty, v6)) => match scan_type_of(ty) {
                                None => None,
                                Some(st) => match sparse_lit(v6, ",\"complete\":"@) {
                                    None => None,
                                    Some(v7) => match sparse_bool(v7) {
                                        None => None,
                                        Some((c, v8)) => match sparse_lit(v8, "}"@) {
                                            None => None,
                                            Some(v9) => Some(
                                                (
                                                    ScanFields {
                                                        id,
                                                        url,
                                                        scan_type: st,
                                                        complete: c,
                                                    },
                                                    v9,
                                                ),
                                            ),
                                        },
                                    },
                                },
                            },
                        },
                    },
                },
            },
        },
    }
}

/// A parsed scan record leaves strictly less input than it was given.
pub proof fn lemma_sparse_scan_obj_shrinks(v: Seq<char>)
    ensures
        sparse_scan_obj(v) is Some ==> sparse_scan_obj(v).unwrap().1.len() < v.len(),
{
    if sparse_scan_obj(v) is Some {
        let v1 = sparse_lit(v, "{\"id\":"@).unwrap();
        lemma_sparse_jstr_shrinks(v1);
        let p2 = sparse_jstr(v1).unwrap();
        let v3 = sparse_lit(p2.1, ",\"url\":"@).unwrap();
        lemma_sparse_jstr_shrinks(v3);
        let p4 = sparse_jstr(v3).unwrap();
        let v5 = sparse_lit(p4.1, ",\"scan_type\":"@).unwrap();
        lemma_sparse_jstr_shrinks(v5);
    }
}

/// Read one serialized response record.
pub open spec fn sparse_resp_obj(v: Seq<char>) -> Option<(Seq<char>, Seq<char>)> {
    match sparse_lit(v, "{\"url\":"@) {
        None => None,
        Some(v1) => match sparse_jstr(v1) {
            None => None,
            Some((url, v2)) => match sparse_lit(v2, "}"@) {
                None => None,
                Some(v3) => Some((url, v3)),
            },
        },
    }
}

/// A parsed response record leaves strictly less input than it was given.
pub proof fn lemma_sparse_resp_obj_shrinks(v: Seq<char>)
    ensures
        sparse_resp_obj(v) is Some ==> sparse_resp_obj(v).unwrap().1.len() < v.len(),
{
    if sparse_resp_obj(v) is Some {
        let v1 = sparse_lit(v, "{\"url\":"@).unwrap();
        lemma_sparse_jstr_shrinks(v1);
    }
}

/// Read comma-joined scan records up to, but not through, whatever
/// follows the last of them.
pub open spec fn sparse_scan_items(v: Seq<char>) -> Option<(Seq<ScanFields>, Seq<char>)>
    decreases v.len(),
    via sparse_scan_items_dec
{
    match sparse_scan_obj(v) {
        None => None,
        Some(p) => if p.1.len() > 0 && p.1[0] == ',' {
            match sparse_scan_items(p.1.drop_first()) {
                None => None,
                Some(q) => Some((seq![p.0] + q.0, q.1)),
            }
        } else {
            Some((seq![p.0], p.1))
        },
    }
}

#[via_fn]
proof fn sparse_scan_items_dec(v: Seq<char>) {
    lemma_sparse_scan_obj_shrinks(v);
}

/// Read comma-joined response records likewise.
pub open spec fn sparse_resp_items(v: Seq<char>) -> Option<(Seq<Seq<char>>, Seq<char>)>
    decreases v.len(),
    via sparse_resp_items_dec
{
    match sparse_resp_obj(v) {
        None => None,
        Some(p) => if p.1.len() > 0 && p.1[0] == ',' {
            match sparse_resp_items(p.1.drop_first()) {
                None => None,
                Some(q) => Some((seq![p.0] + q.0, q.1)),
            }
        } else {
            Some((seq![p.0], p.1))
        },
    }
}

#[via_fn]
proof fn sparse_resp_items_dec(v: Seq<char>) {
    lemma_sparse_resp_obj_shrinks(v);
}

/// Read a scans array: brackets around zero or more records.
pub open spec fn sparse_scans_arr(v: Seq<char>) -> Option<(Seq<ScanFields>, Seq<char>)> {
    match sparse_lit(v, "["@) {
        None => None,
        Some(v1) => if v1.len() > 0 && v1[0] == ']' {
            Some((Seq::empty(), v1.drop_first()))
        } else {
            match sparse_scan_items(v1) {
                None => None,
                Some((fs, v2)) => match sparse_lit(v2, "]"@) {
                    None => None,
                    Some(v3) => Some((fs, v3)),
                },
            }
        },
    }
}

/// Read a responses array likewise.
pub open spec fn sparse_resps_arr(v: Seq<char>) -> Option<(Seq<Seq<char>>, Seq<char>)> {
    match sparse_lit(v, "["@) {
        None => None,
        Some(v1) => if v1.len() > 0 && v1[0] == ']' {
            Some((Seq::empty(), v1.drop_first()))
        } else {
            match sparse_resp_items(v1) {
                None => None,
                Some((us, v2)) => match sparse_lit(v2, "]"@) {
                    None => None,
                    Some(v3) => Some((us, v3)),
                },
            }
        },
    }
}

/// Read a whole snapshot: both arrays, then the configuration text, which
/// runs to the closing brace of the document.
pub open spec fn sparse_doc(v: Seq<char>) -> Option<StateFields> {
    match sparse_lit(v, "{\"scans\":"@) {
        None => None,
        Some(v1) => match sparse_scans_arr(v1) {
            None => None,
            Some((ss, v2)) => match sparse_lit(v2, ",\"responses\":"@) {
                None => None,
                Some(v3) => match sparse_resps_arr(v3) {
                    None => None,
                    Some((us, v4)) => match sparse_lit(v4, ",\"config\":"@) {
                        None => None,
                        Some(v5) => if v5.len() >= 1 && v5[v5.len() - 1] == '}' {
                            Some(
                                StateFields {
                                    scans: ss,
                                    responses: us,
                                    config: v5.subrange(0, v5.len() - 1),
                                },
                            )
                        } else {
                            None
                        },
                    },
                },
            },
        },
    }
}

} // verus!

verus! {

/// A scan type's serialized name denotes that type and no other.
pub proof fn lemma_scan_type_text(t: ScanType)
    ensures
        scan_type_of(type_text(t)) == Some(t),
{
    reveal_strlit("File");
    reveal_strlit("Directory");
    assert("File"@.len() != "Directory"@.len());
}

/// Reading a serialized boolean inverts writing one.
pub proof fn lemma_sparse_bool(b: bool, rest: Seq<char>)
    ensures
        sparse_bool(bool_text(b) + rest) == Some((b, rest)),
{
    reveal_strlit("true");
    reveal_strlit("false");
    let v = bool_text(b) + rest;
    if b {
        lemma_sparse_lit_prefix("true"@, rest);
    } else {
        lemma_sparse_lit_prefix("false"@, rest);
        if sparse_lit(v, "true"@) is Some {
            assert(v.subrange(0, 4)[0] == "true"@[0]);
            assert(v[0] == "false"@[0]);
            assert(false);
        }
    }
}

/// A serialized scan record starts with its opening brace.
pub proof fn lemma_emit_scan_first(f: ScanFields)
    ensures
        emit_scan(f).len() > 0,
        emit_scan(f)[0] == '{',
{
    reveal_strlit("{\"id\":");
    assert(emit_scan(f)[0] == "{\"id\":"@[0]);
}

/// Reading one serialized scan record inverts writing one.
pub proof fn lemma_scan_obj_roundtrip(f: ScanFields, rest: Seq<char>)
    ensures
        sparse_scan_obj(emit_scan(f) + rest) == Some((f, rest)),
{
    let t8 = "}"@ + rest;
    let t7 = bool_text(f.complete) + t8;
    let t6 = ",\"complete\":"@ + t7;
    let t5 = jstr(type_text(f.scan_type)) + t6;
    let t4 = ",\"scan_type\":"@ + t5;
    let t3 = jstr(f.url) + t4;
    let t2 = ",\"url\":"@ + t3;
    let t1 = jstr(f.id) + t2;
    assert(emit_scan(f) + rest =~= "{\"id\":"@ + t1);
    lemma_sparse_lit_prefix("{\"id\":"@, t1);
    lemma_sparse_jstr_of(f.id, t2);
    lemma_sparse_lit_prefix(",\"url\":"@, t3);
    lemma_sparse_jstr_of(f.url, t4);
    lemma_sparse_lit_prefix(",\"scan_type\":"@, t5);
    lemma_sparse_jstr_of(type_text(f.scan_type), t6);
    lemma_scan_type_text(f.scan_type);
    lemma_sparse_lit_prefix(",\"complete\":"@, t7);
    lemma_sparse_bool(f.complete, t8);
    lemma_sparse_lit_prefix("}"@, rest);
    assert(sparse_scan_obj(emit_scan(f) + rest) == Some((f, rest)));
}

/// Reading comma-joined scan records inverts writing them, for one record
/// or more, provided what follows does not begin with a comma.
#[verifier::rlimit(60)]
pub proof fn lemma_scan_items_roundtrip(fs: Seq<ScanFields>, rest: Seq<char>)
    requires
        fs.len() >= 1,
        rest.len() > 0 ==> rest[0] != ',',
    ensures
        sparse_scan_items(emit_scan_items(fs) + rest) == Some((fs, rest)),
    decreases fs.len(),
{
    if fs.len() == 1 {
        lemma_scan_obj_roundtrip(fs[0], rest);
        assert(seq![fs[0]] =~= fs);
    } else {
        let tail = emit_scan_items(fs.drop_first()) + rest;
        assert(emit_scan_items(fs) + rest =~= emit_scan(fs[0]) + (seq![','] + tail));
        lemma_scan_obj_roundtrip(fs[0], seq![','] + tail);
        assert((seq![','] + tail)[0] == ',');
        assert((seq![','] + tail).drop_first() =~= tail);
        lemma_scan_items_roundtrip(fs.drop_first(), rest);
        assert(seq![fs[0]] + fs.drop_first() =~= fs);
    }
}

/// Reading a scans array inverts writing one, empty or not.
pub proof fn lemma_scans_arr_roundtrip(fs: Seq<ScanFields>, rest: Seq<char>)
    ensures
        sparse_scans_arr(emit_scans_arr(fs) + rest) == Some((fs, rest)),
{
    reveal_strlit("]");
    let t1 = emit_scan_items(fs) + ("]"@ + rest);
    assert(emit_scans_arr(fs) + rest =~= "["@ + t1);
    lemma_sparse_lit_prefix("["@, t1);
    if fs.len() == 0 {
        assert(t1 =~= "]"@ + rest);
        assert(t1[0] == ']');
        assert(t1.drop_first() =~= rest);
        assert(fs =~= Seq::<ScanFields>::empty());
    } else {
        lemma_emit_scan_first(fs[0]);
        if fs.len() == 1 {
            assert(emit_scan_items(fs)[0] == '{');
        } else {
            assert(emit_scan_items(fs)[0] == '{');
        }
        assert(t1[0] == '{');
        assert(("]"@ + rest)[0] == ']');
        lemma_scan_items_roundtrip(fs, "]"@ + rest);
        lemma_sparse_lit_prefix("]"@, rest);
    }
}

/// A serialized response record starts with its opening brace.
pub proof fn lemma_emit_resp_first(url: Seq<char>)
    ensures
        emit_resp(url).len() > 0,
        emit_resp(url)[0] == '{',
{
    reveal_strlit("{\"url\":");
    assert(emit_resp(url)[0] == "{\"url\":"@[0]);
}

/// Reading one serialized response record inverts writing one.
pub proof fn lemma_resp_obj_roundtrip(url: Seq<char>, rest: Seq<char>)
    ensures
        sparse_resp_obj(emit_resp(url) + rest) == Some((url, rest)),
{
    let t2 = "}"@ + rest;
    let t1 = jstr(url) + t2;
    assert(emit_resp(url) + rest =~= "{\"url\":"@ + t1);
    lemma_sparse_lit_prefix("{\"url\":"@, t1);
    lemma_sparse_jstr_of(url, t2);
    lemma_sparse_lit_prefix("}"@, rest);
}

/// Reading comma-joined response records inverts writing them, for one
/// record or more, provided what follows does not begin with a comma.
#[verifier::rlimit(60)]
pub proof fn lemma_resp_items_roundtrip(us: Seq<Seq<char>>, rest: Seq<char>)
    requires
        us.len() >= 1,
        rest.len() > 0 ==> rest[0] != ',',
    ensures
        sparse_resp_items(emit_resp_items(us) + rest) == Some((us, rest)),
    decreases us.len(),
{
    if us.len() == 1 {
        lemma_resp_obj_roundtrip(us[0], rest);
        assert(seq![us[0]] =~= us);
    } else {
        let tail = emit_resp_items(us.drop_first()) + rest;
        assert(emit_resp_items(us) + rest =~= emit_resp(us[0]) + (seq![','] + tail));
        lemma_resp_obj_roundtrip(us[0], seq![','] + tail);
        assert((seq![','] + tail)[0] == ',');
        assert((seq![','] + tail).drop_first() =~= tail);
        lemma_resp_items_roundtrip(us.drop_first(), rest);
        assert(seq![us[0]] + us.drop_first() =~= us);
    }
}

/// Reading a responses array inverts writing one, empty or not.
pub proof fn lemma_resps_arr_roundtrip(us: Seq<Seq<char>>, rest: Seq<char>)
    ensures
        sparse_resps_arr(emit_resps_arr(us) + rest) == Some((us, rest)),
{
    reveal_strlit("]");
    let t1 = emit_resp_items(us) + ("]"@ + rest);
    assert(emit_resps_arr(us) + rest =~= "["@ + t1);
    lemma_sparse_lit_prefix("["@, t1);
    if us.len() == 0 {
        assert(t1 =~= "]"@ + rest);
        assert(t1[0] == ']');
        assert(t1.drop_first() =~= rest);
        assert(us =~= Seq::<Seq<char>>::empty());
    } else {
        lemma_emit_resp_first(us[0]);
        assert(emit_resp_items(us)[0] == '{');
        assert(t1[0] == '{');
        assert(("]"@ + rest)[0] == ']');
        lemma_resp_items_roundtrip(us, "]"@ + rest);
        lemma_sparse_lit_prefix("]"@, rest);
    }
}

/// Snapshot round-trip: reading back a written snapshot recovers every
/// scan's fields, every response, and the configuration text exactly —
/// whatever they hold.
pub proof fn lemma_state_roundtrip(f: StateFields)
    ensures
        sparse_doc(emit_state(f)) == Some(f),
{
    reveal_strlit("}");
    let t4 = f.config + "}"@;
    let t3 = emit_resps_arr(f.responses) + (",\"config\":"@ + t4);
    let t2 = ",\"responses\":"@ + t3;
    let t1 = emit_scans_arr(f.scans) + t2;
    assert(emit_state(f) =~= "{\"scans\":"@ + t1);
    lemma_sparse_lit_prefix("{\"scans\":"@, t1);
    lemma_scans_arr_roundtrip(f.scans, t2);
    lemma_sparse_lit_prefix(",\"responses\":"@, t3);
    lemma_resps_arr_roundtrip(f.responses, ",\"config\":"@ + t4);
    lemma_sparse_lit_prefix(",\"config\":"@, t4);
    assert(t4.len() == f.config.len() + 1);
    assert(t4[t4.len() - 1] == '}');
    assert(t4.subrange(0, t4.len() - 1) =~= f.config);
}

} // verus!

verus! {

/// The serialized fields of one scan record.
pub open spec fn scan_fields(s: crate::scan::FeroxScan) -> ScanFields {
    ScanFields { id: s.id@, url: s.url@, scan_type: s.scan_type, complete: s.complete }
}

/// Appending one record to a non-empty join inserts one comma.
proof fn lemma_emit_scan_items_snoc(fs: Seq<ScanFields>, f: ScanFields)
    requires
        fs.len() >= 1,
    ensures
        emit_scan_items(fs.push(f)) == emit_scan_items(fs) + seq![','] + emit_scan(f),
    decreases fs.len(),
{
    assert(fs.push(f).len() == fs.len() + 1);
    assert(fs.push(f)[0] == fs[0]);
    assert(emit_scan_items(fs.push(f)) == emit_scan(fs[0]) + seq![','] + emit_scan_items(
        fs.push(f).drop_first(),
    ));
    if fs.len() == 1 {
        assert(fs.push(f).drop_first() =~= seq![f]);
        assert(seq![f][0] == f);
        assert(emit_scan_items(seq![f]) == emit_scan(f));
        assert(emit_scan_items(fs) == emit_scan(fs[0]));
        assert(emit_scan_items(fs.push(f)) =~= emit_scan_items(fs) + seq![','] + emit_scan(f));
    } else {
        assert(fs.push(f).drop_first() =~= fs.drop_first().push(f));
        lemma_emit_scan_items_snoc(fs.drop_first(), f);
        assert(emit_scan_items(fs) == emit_scan(fs[0]) + seq![','] + emit_scan_items(
            fs.drop_first(),
        ));
        assert(emit_scan_items(fs.push(f)) =~= emit_scan_items(fs) + seq![','] + emit_scan(f));
    }
}

/// Appending one record to a non-empty join inserts one comma.
proof fn lemma_emit_resp_items_snoc(us: Seq<Seq<char>>, u: Seq<char>)
    requires
        us.len() >= 1,
    ensures
        emit_resp_items(us.push(u)) == emit_resp_items(us) + seq![','] + emit_resp(u),
    decreases us.len(),
{
    assert(us.push(u).len() == us.len() + 1);
    assert(us.push(u)[0] == us[0]);
    assert(emit_resp_items(us.push(u)) == emit_resp(us[0]) + seq![','] + emit_resp_items(
        us.push(u).drop_first(),
    ));
    if us.len() == 1 {
        assert(us.push(u).drop_first() =~= seq![u]);
        assert(seq![u][0] == u);
        assert(emit_resp_items(seq![u]) == emit_resp(u));
        assert(emit_resp_items(us) == emit_resp(us[0]));
        assert(emit_resp_items(us.push(u)) =~= emit_resp_items(us) + seq![','] + emit_resp(u));
    } else {
        assert(us.push(u).drop_first() =~= us.drop_first().push(u));
        lemma_emit_resp_items_snoc(us.drop_first(), u);
        assert(emit_resp_items(us) == emit_resp(us[0]) + seq![','] + emit_resp_items(
            us.drop_first(),
        ));
        assert(emit_resp_items(us.push(u)) =~= emit_resp_items(us) + seq![','] + emit_resp(u));
    }
}

/// Append one scan record in its serialized form.
fn push_scan_obj(out: &mut Vec<char>, s: &crate::scan::FeroxScan)
    ensures
        final(out)@ == old(out)@ + emit_scan(scan_fields(*s)),
{
    push_str_chars(out, "{\"id\":");
    push_jstr(out, s.id.as_str());
    push_str_chars(out, ",\"url\":");
    push_jstr(out, s.url.as_str());
    push_str_chars(out, ",\"scan_type\":");
    match s.scan_type {
        ScanType::File => push_jstr(out, "File"),
        ScanType::Directory => push_jstr(out, "Directory"),
    }
    push_str_chars(out, ",\"complete\":");
    if s.complete {
        push_str_chars(out, "true");
    } else {
        push_str_chars(out, "false");
    }
    push_str_chars(out, "}");
    proof {
        assert(out@ =~= old(out)@ + emit_scan(scan_fields(*s)));
    }
}

/// Append the serialized scans array.
fn push_scans_arr(out: &mut Vec<char>, scans: &Vec<crate::scan::FeroxScan>)
    ensures
        final(out)@ == old(out)@ + emit_scans_arr(
            scans@.map_values(|s: crate::scan::FeroxScan| scan_fields(s)),
        ),
{
    push_str_chars(out, "[");
    let n = scans.len();
    let mut i: usize = 0;
    while i < n
        invariant
            n == scans@.len(),
            i <= n,
            out@ == old(out)@ + "["@ + emit_scan_items(
                scans@.subrange(0, i as int).map_values(|s: crate::scan::FeroxScan| scan_fields(s)),
            ),
        decreases n - i,
    {
        let ghost pre = scans@.subrange(0, i as int).map_values(
            |s: crate::scan::FeroxScan| scan_fields(s),
        );
        if i > 0 {
            out.push(',');
        }
        push_scan_obj(out, &scans[i]);
        proof {
            let post = scans@.subrange(0, i + 1).map_values(
                |s: crate::scan::FeroxScan| scan_fields(s),
            );
            assert(post =~= pre.push(scan_fields(scans@[i as int])));
            if i > 0 {
                lemma_emit_scan_items_snoc(pre, scan_fields(scans@[i as int]));
            } else {
                assert(pre.len() == 0);
                assert(post =~= seq![scan_fields(scans@[i as int])]);
            }
            assert(out@ =~= old(out)@ + "["@ + emit_scan_items(post));
        }
        i += 1;
    }
    push_str_chars(out, "]");
    proof {
        assert(scans@.subrange(0, n as int) =~= scans@);
        assert(out@ =~= old(out)@ + emit_scans_arr(
            scans@.map_values(|s: crate::scan::FeroxScan| scan_fields(s)),
        ));
    }
}

/// Append the serialized responses array.
fn push_resps_arr(out: &mut Vec<char>, resps: &Vec<FeroxResponse>)
    ensures
        final(out)@ == old(out)@ + emit_resps_arr(
            resps@.map_values(|r: FeroxResponse| r.url@),
        ),
{
    push_str_chars(out, "[");
    let n = resps.len();
    let mut i: usize = 0;
    while i < n
        invariant
            n == resps@.len(),
            i <= n,
            out@ == old(out)@ + "["@ + emit_resp_items(
                resps@.subrange(0, i as int).map_values(|r: FeroxResponse| r.url@),
            ),
        decreases n - i,
    {
        let ghost pre = resps@.subrange(0, i as int).map_values(|r: FeroxResponse| r.url@);
        if i > 0 {
            out.push(',');
        }
        push_str_chars(out, "{\"url\":");
        push_jstr(out, resps[i].url.as_str());
        push_str_chars(out, "}");
        proof {
            let post = resps@.subrange(0, i + 1).map_values(|r: FeroxResponse| r.url@);
            assert(post =~= pre.push(resps@[i as int].url@));
            if i > 0 {
                lemma_emit_resp_items_snoc(pre, resps@[i as int].url@);
            } else {
                assert(pre.len() == 0);
                assert(post =~= seq![resps@[i as int].url@]);
            }
            assert(out@ =~= old(out)@ + "["@ + emit_resp_items(post));
        }
        i += 1;
    }
    push_str_chars(out, "]");
    proof {
        assert(resps@.subrange(0, n as int) =~= resps@);
        assert(out@ =~= old(out)@ + emit_resps_arr(resps@.map_values(|r: FeroxResponse| r.url@)));
    }
}

/// A point-in-time aggregate view over the configuration and the two
/// registries, borrowed from the process-wide instances; produced on
/// demand, serialized, never kept live.
#[derive(Debug)]
pub struct FeroxState<'a> {
    /// The known scans.
    pub scans: &'a FeroxScans,
    /// The running configuration.
    pub config: &'a Configuration,
    /// The known responses.
    pub responses: &'a FeroxResponses,
}

impl<'a> FeroxState<'a> {
    /// The snapshot's fields: every scan's serialized fields, every
    /// response's URL, and the configuration text.
    pub open spec fn fields(self) -> StateFields {
        StateFields {
            scans: self.scans.scans@.map_values(|s: crate::scan::FeroxScan| scan_fields(s)),
            responses: self.responses.responses@.map_values(|r: FeroxResponse| r.url@),
            config: self.config.text@,
        }
    }

    /// The snapshot serialized to its structured-text form.
    pub fn as_json(&self) -> (r: String)
        ensures
            r@ == emit_state(self.fields()),
    {
        let mut out: Vec<char> = Vec::new();
        push_str_chars(&mut out, "{\"scans\":");
        push_scans_arr(&mut out, &self.scans.scans);
        push_str_chars(&mut out, ",\"responses\":");
        push_resps_arr(&mut out, &self.responses.responses);
        push_str_chars(&mut out, ",\"config\":");
        push_str_chars(&mut out, self.config.text.as_str());
        push_str_chars(&mut out, "}");
        proof {
            assert(out@ =~= emit_state(self.fields()));
        }
        chars_to_string(&out)
    }

    /// The snapshot's plain-text rendering; the serialized form is the
    /// one faithful text the snapshot has.
    pub fn as_str(&self) -> (r: String)
        ensures
            r@ == emit_state(self.fields()),
    {
        self.as_json()
    }
}

/// The name of the state file written on interrupt: the epoch second the
/// interrupt arrived, between a fixed stem and extension.
pub fn state_filename(epoch_secs: u64) -> (r: String)
    ensures
        r@ == "ferox-"@ + dec(epoch_secs as nat) + ".state"@,
{
    let mut out: Vec<char> = Vec::new();
    push_str_chars(&mut out, "ferox-");
    push_u64(&mut out, epoch_secs);
    push_str_chars(&mut out, ".state");
    proof {
        assert(out@ =~= "ferox-"@ + dec(epoch_secs as nat) + ".state"@);
    }
    chars_to_string(&out)
}

} // verus!

verus! {

/// Read a serialized boolean at `pos`.
fn parse_bool_at(v: &Vec<char>, pos: usize) -> (r: Option<(bool, usize)>)
    requires
        pos <= v@.len(),
    ensures
        match sparse_bool(suffix(v@, pos as int)) {
            None => r is None,
            Some(p) => r is Some && r.unwrap().0 == p.0 && r.unwrap().1 <= v@.len() && suffix(
                v@,
                r.unwrap().1 as int,
            ) == p.1,
        },
{
    if let Some(p) = parse_lit_at(v, pos, "true") {
        return Some((true, p));
    }
    if let Some(p) = parse_lit_at(v, pos, "false") {
        return Some((false, p));
    }
    None
}

/// The scan type a parsed name denotes, if any.
fn parse_scan_type(s: &String) -> (r: Option<ScanType>)
    ensures
        r == scan_type_of(s@),
{
    let file = String::from_str("File");
    let directory = String::from_str("Directory");
    if *s == file {
        Some(ScanType::File)
    } else if *s == directory {
        Some(ScanType::Directory)
    } else {
        None
    }
}

/// Read one serialized scan record at `pos`, rebuilt as a record with no
/// task and no progress indicator — a snapshot keeps neither.
fn parse_scan_obj_at(v: &Vec<char>, pos: usize) -> (r: Option<(crate::scan::FeroxScan, usize)>)
    requires
        pos <= v@.len(),
    ensures
        match sparse_scan_obj(suffix(v@, pos as int)) {
            None => r is None,
            Some(p) => r is Some && scan_fields(r.unwrap().0) == p.0 && r.unwrap().0.task is None
                && r.unwrap().0.progress_bar is None && r.unwrap().1 <= v@.len() && suffix(
                v@,
                r.unwrap().1 as int,
            ) == p.1,
        },
{
    let p1 = match parse_lit_at(v, pos, "{\"id\":") {
        Some(p) => p,
        None => {
            return None;
        },
    };
    let (id, p2) = match parse_jstr_at(v, p1) {
        Some(x) => x,
        None => {
            return None;
        },
    };
    let p3 = match parse_lit_at(v, p2, ",\"url\":") {
        Some(p) => p,
        None => {
            return None;
        },
    };
    let (url, p4) = match parse_jstr_at(v, p3) {
        Some(x) => x,
        None => {
            return None;
        },
    };
    let p5 = match parse_lit_at(v, p4, ",\"scan_type\":") {
        Some(p) => p,
        None => {
            return None;
        },
    };
    let (ty_name, p6) = match parse_jstr_at(v, p5) {
        Some(x) => x,
        None => {
            return None;
        },
    };
    let st = match parse_scan_type(&ty_name) {
        Some(t) => t,
        None => {
            return None;
        },
    };
    let p7 = match parse_lit_at(v, p6, ",\"complete\":") {
        Some(p) => p,
        None => {
            return None;
        },
    };
    let (complete, p8) = match parse_bool_at(v, p7) {
        Some(x) => x,
        None => {
            return None;
        },
    };
    let p9 = match parse_lit_at(v, p8, "}") {
        Some(p) => p,
        None => {
            return None;
        },
    };
    Some(
        (
            crate::scan::FeroxScan {
                id,
                url,
                scan_type: st,
                complete,
                task: None,
                progress_bar: None,
            },
            p9,
        ),
    )
}

/// Read one serialized response record at `pos`.
fn parse_resp_obj_at(v: &Vec<char>, pos: usize) -> (r: Option<(FeroxResponse, usize)>)
    requires
        pos <= v@.len(),
    ensures
        match sparse_resp_obj(suffix(v@, pos as int)) {
            None => r is None,
            Some(p) => r is Some && r.unwrap().0.url@ == p.0 && r.unwrap().1 <= v@.len() && suffix(
                v@,
                r.unwrap().1 as int,
            ) == p.1,
        },
{
    let p1 = match parse_lit_at(v, pos, "{\"url\":") {
        Some(p) => p,
        None => {
            return None;
        },
    };
    let (url, p2) = match parse_jstr_at(v, p1) {
        Some(x) => x,
        None => {
            return None;
        },
    };
    let p3 = match parse_lit_at(v, p2, "}") {
        Some(p) => p,
        None => {
            return None;
        },
    };
    Some((FeroxResponse { url }, p3))
}

} // verus!

verus! {

/// Read comma-joined scan records starting at `pos`.
fn parse_scan_items_at(v: &Vec<char>, pos: usize) -> (r: Option<(Vec<crate::scan::FeroxScan>, usize)>)
    requires
        pos <= v@.len(),
    ensures
        match sparse_scan_items(suffix(v@, pos as int)) {
            None => r is None,
            Some(p) => r is Some && r.unwrap().0@.map_values(
                |s: crate::scan::FeroxScan| scan_fields(s),
            ) == p.0 && r.unwrap().1 <= v@.len() && suffix(v@, r.unwrap().1 as int) == p.1,
        },
{
    let mut acc: Vec<crate::scan::FeroxScan> = Vec::new();
    let mut cur: usize = pos;
    loop
        invariant
            pos <= cur <= v@.len(),
            ({
                let full = sparse_scan_items(suffix(v@, pos as int));
                let rem = sparse_scan_items(suffix(v@, cur as int));
                let accf = acc@.map_values(|s: crate::scan::FeroxScan| scan_fields(s));
                match rem {
                    Some(q) => full == Some((accf + q.0, q.1)),
                    None => full is None,
                }
            }),
        decreases v@.len() - cur,
    {
        let (scan, p) = match parse_scan_obj_at(v, cur) {
            Some(x) => x,
            None => {
                return None;
            },
        };
        proof {
            lemma_sparse_scan_obj_shrinks(suffix(v@, cur as int));
        }
        let ghost acc0 = acc@.map_values(|s: crate::scan::FeroxScan| scan_fields(s));
        let ghost f = scan_fields(scan);
        if p < v.len() && v[p] == ',' {
            acc.push(scan);
            proof {
                let accf = acc@.map_values(|s: crate::scan::FeroxScan| scan_fields(s));
                assert(accf =~= acc0.push(f));
                assert(suffix(v@, p as int)[0] == ',');
                assert(suffix(v@, p as int).drop_first() =~= suffix(v@, p + 1));
                let nxt = sparse_scan_items(suffix(v@, p + 1));
                if nxt is Some {
                    let q = nxt.unwrap();
                    assert(acc0 + (seq![f] + q.0) =~= accf + q.0);
                }
            }
            cur = p + 1;
        } else {
            acc.push(scan);
            proof {
                let accf = acc@.map_values(|s: crate::scan::FeroxScan| scan_fields(s));
                assert(accf =~= acc0.push(f));
                assert(acc0 + seq![f] =~= accf);
            }
            return Some((acc, p));
        }
    }
}

/// Read comma-joined response records starting at `pos`.
fn parse_resp_items_at(v: &Vec<char>, pos: usize) -> (r: Option<(Vec<FeroxResponse>, usize)>)
    requires
        pos <= v@.len(),
    ensures
        match sparse_resp_items(suffix(v@, pos as int)) {
            None => r is None,
            Some(p) => r is Some && r.unwrap().0@.map_values(|x: FeroxResponse| x.url@) == p.0
                && r.unwrap().1 <= v@.len() && suffix(v@, r.unwrap().1 as int) == p.1,
        },
{
    let mut acc: Vec<FeroxResponse> = Vec::new();
    let mut cur: usize = pos;
    loop
        invariant
            pos <= cur <= v@.len(),
            ({
                let full = sparse_resp_items(suffix(v@, pos as int));
                let rem = sparse_resp_items(suffix(v@, cur as int));
                let accf = acc@.map_values(|x: FeroxResponse| x.url@);
                match rem {
                    Some(q) => full == Some((accf + q.0, q.1)),
                    None => full is None,
                }
            }),
        decreases v@.len() - cur,
    {
        let (resp, p) = match parse_resp_obj_at(v, cur) {
            Some(x) => x,
            None => {
                return None;
            },
        };
        proof {
            lemma_sparse_resp_obj_shrinks(suffix(v@, cur as int));
        }
        let ghost acc0 = acc@.map_values(|x: FeroxResponse| x.url@);
        let ghost u = resp.url@;
        if p < v.len() && v[p] == ',' {
            acc.push(resp);
            proof {
                let accf = acc@.map_values(|x: FeroxResponse| x.url@);
                assert(accf =~= acc0.push(u));
                assert(suffix(v@, p as int)[0] == ',');
                assert(suffix(v@, p as int).drop_first() =~= suffix(v@, p + 1));
                let nxt = sparse_resp_items(suffix(v@, p + 1));
                if nxt is Some {
                    let q = nxt.unwrap();
                    assert(acc0 + (seq![u] + q.0) =~= accf + q.0);
                }
            }
            cur = p + 1;
        } else {
            acc.push(resp);
            proof {
                let accf = acc@.map_values(|x: FeroxResponse| x.url@);
                assert(accf =~= acc0.push(u));
                assert(acc0 + seq![u] =~= accf);
            }
            return Some((acc, p));
        }
    }
}

/// Read a scans array at `pos`.
fn parse_scans_arr_at(v: &Vec<char>, pos: usize) -> (r: Option<(Vec<crate::scan::FeroxScan>, usize)>)
    requires
        pos <= v@.len(),
    ensures
        match sparse_scans_arr(suffix(v@, pos as int)) {
            None => r is None,
            Some(p) => r is Some && r.unwrap().0@.map_values(
                |s: crate::scan::FeroxScan| scan_fields(s),
            ) == p.0 && r.unwrap().1 <= v@.len() && suffix(v@, r.unwrap().1 as int) == p.1,
        },
{
    let p1 = match parse_lit_at(v, pos, "[") {
        Some(p) => p,
        None => {
            return None;
        },
    };
    if p1 < v.len() && v[p1] == ']' {
        proof {
            assert(suffix(v@, p1 as int)[0] == ']');
            assert(suffix(v@, p1 as int).drop_first() =~= suffix(v@, p1 + 1));
            assert(Seq::<crate::scan::FeroxScan>::empty().map_values(
                |s: crate::scan::FeroxScan| scan_fields(s),
            ) =~= Seq::<ScanFields>::empty());
        }
        return Some((Vec::new(), p1 + 1));
    }
    proof {
        let v1 = suffix(v@, p1 as int);
        assert(!(v1.len() > 0 && v1[0] == ']'));
    }
    let (items, p2) = match parse_scan_items_at(v, p1) {
        Some(x) => x,
        None => {
            return None;
        },
    };
    let p3 = match parse_lit_at(v, p2, "]") {
        Some(p) => p,
        None => {
            return None;
        },
    };
    Some((items, p3))
}

/// Read a responses array at `pos`.
fn parse_resps_arr_at(v: &Vec<char>, pos: usize) -> (r: Option<(Vec<FeroxResponse>, usize)>)
    requires
        pos <= v@.len(),
    ensures
        match sparse_resps_arr(suffix(v@, pos as int)) {
            None => r is None,
            Some(p) => r is Some && r.unwrap().0@.map_values(|x: FeroxResponse| x.url@) == p.0
                && r.unwrap().1 <= v@.len() && suffix(v@, r.unwrap().1 as int) == p.1,
        },
{
    let p1 = match parse_lit_at(v, pos, "[") {
        Some(p) => p,
        None => {
            return None;
        },
    };
    if p1 < v.len() && v[p1] == ']' {
        proof {
            assert(suffix(v@, p1 as int)[0] == ']');
            assert(suffix(v@, p1 as int).drop_first() =~= suffix(v@, p1 + 1));
            assert(Seq::<FeroxResponse>::empty().map_values(|x: FeroxResponse| x.url@)
                =~= Seq::<Seq<char>>::empty());
        }
        return Some((Vec::new(), p1 + 1));
    }
    proof {
        let v1 = suffix(v@, p1 as int);
        assert(!(v1.len() > 0 && v1[0] == ']'));
    }
    let (items, p2) = match parse_resp_items_at(v, p1) {
        Some(x) => x,
        None => {
            return None;
        },
    };
    let p3 = match parse_lit_at(v, p2, "]") {
        Some(p) => p,
        None => {
            return None;
        },
    };
    Some((items, p3))
}

/// Restore a run from the text of a prior state file.
///
/// Reads the snapshot, replays every recorded response into the live
/// response registry, and hands back the restored configuration. The
/// scans section is read and checked but deliberately not replayed:
/// resumption restores prior results, not prior task bookkeeping. A
/// malformed snapshot restores nothing: the registry is left untouched
/// and no configuration comes back — a corrupt resume file makes
/// continuing meaningless, and the caller is expected to stop.
pub fn resume_scan(state_text: &str, responses: &mut FeroxResponses) -> (r: Option<Configuration>)
    ensures
        match sparse_doc(state_text@) {
            None => r is None && *final(responses) == *old(responses),
            Some(f) => {
                &&& r is Some
                &&& r.unwrap().text@ == f.config
                &&& final(responses).responses@.len() == old(responses).responses@.len()
                    + f.responses.len()
                &&& forall|i: int|
                    0 <= i < old(responses).responses@.len() ==> final(responses).responses@[i]
                        == old(responses).responses@[i]
                &&& forall|i: int|
                    0 <= i < f.responses.len() ==> final(responses).responses@[old(
                        responses,
                    ).responses@.len() + i].url@ == f.responses[i]
            },
        },
{
    let v = str_to_chars(state_text);
    proof {
        assert(suffix(v@, 0) =~= state_text@);
    }
    let p1 = match parse_lit_at(&v, 0, "{\"scans\":") {
        Some(p) => p,
        None => {
            return None;
        },
    };
    // parsed for validation only: scan bookkeeping is not replayed
    let (_scans, p2) = match parse_scans_arr_at(&v, p1) {
        Some(x) => x,
        None => {
            return None;
        },
    };
    let p3 = match parse_lit_at(&v, p2, ",\"responses\":") {
        Some(p) => p,
        None => {
            return None;
        },
    };
    let (resps, p4) = match parse_resps_arr_at(&v, p3) {
        Some(x) => x,
        None => {
            return None;
        },
    };
    let p5 = match parse_lit_at(&v, p4, ",\"config\":") {
        Some(p) => p,
        None => {
            return None;
        },
    };
    if p5 >= v.len() || v[v.len() - 1] != '}' {
        proof {
            let v5 = suffix(v@, p5 as int);
            if p5 < v@.len() {
                assert(v5[v5.len() - 1] == v@[v@.len() - 1]);
            }
        }
        return None;
    }
    let end = v.len() - 1;
    let mut cfg: Vec<char> = Vec::new();
    let mut i: usize = p5;
    while i < end
        invariant
            p5 <= i <= end < v@.len(),
            cfg@ == v@.subrange(p5 as int, i as int),
        decreases end - i,
    {
        cfg.push(v[i]);
        proof {
            assert(cfg@ =~= v@.subrange(p5 as int, i + 1));
        }
        i += 1;
    }
    proof {
        let v5 = suffix(v@, p5 as int);
        assert(v5[v5.len() - 1] == v@[v@.len() - 1]);
        assert(cfg@ =~= v5.subrange(0, v5.len() - 1));
    }
    let config = Configuration { text: chars_to_string(&cfg) };
    let ghost resps0 = resps@;
    let ghost before = responses.responses@;
    let n = resps.len();
    let mut k: usize = 0;
    while k < n
        invariant
            n == resps0.len(),
            k <= n,
            resps@ == resps0,
            responses.responses@ == before + resps0.subrange(0, k as int),
        decreases n - k,
    {
        responses.insert(resps[k].clone());
        proof {
            assert(responses.responses@ =~= before + resps0.subrange(0, k + 1));
        }
        k += 1;
    }
    proof {
        assert(resps0.subrange(0, n as int) =~= resps0);
    }
    Some(config)
}

} // verus!
