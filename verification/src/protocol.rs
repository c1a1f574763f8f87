//! The decisions of the protocol client that do not touch the network:
//! the query strings sent to the master, the classification of a volume
//! server's HTTP status, the validation of an upload source, and the
//! accumulator behind whole-buffer reads.

use vstd::prelude::*;
use vstd::string::StringExecFns;

use crate::error::ErrorKind;
use crate::error::WeedFSError;
use crate::types::code_chars;
use crate::types::requests::AssignRequest;
use crate::utils::all_digits;
use crate::utils::digit_val;
use crate::utils::digits_value;
use crate::utils::is_digit_char;
use crate::utils::lemma_separator_pos_found;
use crate::utils::valid_file_id;
use crate::utils::volume_id_of;
use crate::utils::volume_prefix;

verus! {

// ---------------------------------------------------------------------
// Decimal rendering
// ---------------------------------------------------------------------

/// The character of a single decimal digit.
pub open spec fn digit_char(d: nat) -> char {
    if d == 0 {
        '0'
    } else if d == 1 {
        '1'
    } else if d == 2 {
        '2'
    } else if d == 3 {
        '3'
    } else if d == 4 {
        '4'
    } else if d == 5 {
        '5'
    } else if d == 6 {
        '6'
    } else if d == 7 {
        '7'
    } else if d == 8 {
        '8'
    } else {
        '9'
    }
}

/// The decimal rendering of `n`, most significant digit first, no sign
/// and no padding.
pub open spec fn dec_chars(n: nat) -> Seq<char>
    decreases n,
{
    if n < 10 {
        seq![digit_char(n)]
    } else {
        dec_chars(n / 10).push(digit_char(n % 10))
    }
}

/// Law: decimal rendering and the file-id codec's digit parser invert
/// each other — the rendering of `n` is a non-empty digit run whose
/// parsed value is `n` again.
pub proof fn lemma_dec_chars_value(n: nat)
    ensures
        dec_chars(n).len() > 0,
        all_digits(dec_chars(n)),
        digits_value(dec_chars(n)) == n,
    decreases n,
{
    if n < 10 {
        reveal_with_fuel(digits_value, 2);
        let s = dec_chars(n);
        assert(s.drop_last() =~= Seq::<char>::empty());
        assert(digit_val(digit_char(n)) == n);
    } else {
        lemma_dec_chars_value(n / 10);
        let p = dec_chars(n / 10);
        let s = dec_chars(n);
        assert(s.drop_last() =~= p);
        assert(s.last() == digit_char(n % 10));
        assert(digit_val(digit_char(n % 10)) == n % 10);
        assert((n / 10) * 10 + n % 10 == n) by (nonlinear_arith);
        assert forall|i: int| 0 <= i < s.len() implies is_digit_char(#[trigger] s[i]) by {
            if i < p.len() {
                assert(s[i] == p[i]);
            }
        }
    }
}

/// Law: a file id assembled from the decimal rendering of `v`, the
/// separator, and any remainder names volume `v` — what `assign` mints,
/// the codec reads back.
pub proof fn lemma_volume_id_round_trip(v: u64, rest: Seq<char>)
    ensures
        valid_file_id(dec_chars(v as nat) + seq![','] + rest),
        volume_id_of(dec_chars(v as nat) + seq![','] + rest) == v,
{
    lemma_dec_chars_value(v as nat);
    let p = dec_chars(v as nat);
    let s = p + seq![','] + rest;
    assert(s[p.len() as int] == ',');
    assert forall|j: int| 0 <= j < p.len() implies s[j] != ',' by {
        assert(s[j] == p[j]);
        assert(is_digit_char(p[j]));
    }
    lemma_separator_pos_found(s, p.len() as int);
    assert(volume_prefix(s) =~= p);
}

/// Render `n` in decimal, most significant digit first, without sign or
/// padding.
fn u64_to_string(n: u64) -> (r: String)
    ensures
        r@ == dec_chars(n as nat),
    decreases n,
{
    let m = n % 10;
    let digit: &str = if m == 0 {
        "0"
    } else if m == 1 {
        "1"
    } else if m == 2 {
        "2"
    } else if m == 3 {
        "3"
    } else if m == 4 {
        "4"
    } else if m == 5 {
        "5"
    } else if m == 6 {
        "6"
    } else if m == 7 {
        "7"
    } else if m == 8 {
        "8"
    } else {
        "9"
    };
    proof {
        reveal_strlit("0");
        reveal_strlit("1");
        reveal_strlit("2");
        reveal_strlit("3");
        reveal_strlit("4");
        reveal_strlit("5");
        reveal_strlit("6");
        reveal_strlit("7");
        reveal_strlit("8");
        reveal_strlit("9");
        assert(digit@ =~= seq![digit_char((n % 10) as nat)]);
    }
    if n < 10 {
        digit.to_owned()
    } else {
        let mut s = u64_to_string(n / 10);
        s.append(digit);
        proof {
            assert(s@ =~= dec_chars(n as nat));
        }
        s
    }
}

// ---------------------------------------------------------------------
// Master queries
// ---------------------------------------------------------------------

/// The query path `assign` sends to the master: always the requested
/// count, then the replication code and the collection when they are
/// set.
pub open spec fn assign_query_chars(req: AssignRequest) -> Seq<char> {
    "/dir/assign?count="@ + dec_chars(req.version as nat) + (match req.replication_strategy {
        Some(rep) => "&replication="@ + code_chars(rep),
        None => Seq::<char>::empty(),
    }) + (match req.collection {
        Some(c) => "&collection="@ + c@,
        None => Seq::<char>::empty(),
    })
}

/// Build the master-relative path of an `assign` call.
pub fn assign_query_path(req: &AssignRequest) -> (r: String)
    ensures
        r@ == assign_query_chars(*req),
{
    let mut s = "/dir/assign?count=".to_owned();
    let count = u64_to_string(req.version);
    s.append(count.as_str());
    match &req.replication_strategy {
        Some(rep) => {
            s.append("&replication=");
            s.append(rep.code());
        },
        None => {},
    }
    match &req.collection {
        Some(c) => {
            s.append("&collection=");
            s.append(c.as_str());
        },
        None => {},
    }
    proof {
        assert(s@ =~= assign_query_chars(*req));
    }
    s
}

/// The query path `lookup` sends to the master for a volume id.
pub open spec fn lookup_query_chars(volume_id: u64) -> Seq<char> {
    "/dir/lookup?volumeId="@ + dec_chars(volume_id as nat)
}

/// Build the master-relative path of a `lookup` call.
pub fn lookup_query_path(volume_id: u64) -> (r: String)
    ensures
        r@ == lookup_query_chars(volume_id),
{
    let mut s = "/dir/lookup?volumeId=".to_owned();
    let v = u64_to_string(volume_id);
    s.append(v.as_str());
    proof {
        assert(s@ =~= lookup_query_chars(volume_id));
    }
    s
}

/// Law: `lookup` is request-side stateless — the query it sends is a
/// function of the volume id alone, so repeating a lookup repeats the
/// same request.
pub proof fn lemma_lookup_query_deterministic(v1: u64, v2: u64)
    requires
        v1 == v2,
    ensures
        lookup_query_chars(v1) == lookup_query_chars(v2),
{
}

// ---------------------------------------------------------------------
// Download status and upload validation
// ---------------------------------------------------------------------

/// Classify the HTTP status a volume server answered a download with:
/// 2xx succeeds, 404 means the replica's bytes are gone, and every other
/// status is a transport failure.
pub fn classify_volume_status(status: u16) -> (r: Result<(), WeedFSError>)
    ensures
        200 <= status < 300 ==> r is Ok,
        status == 404 ==> (r matches Err(e) && e.spec_kind() == ErrorKind::NotFound),
        !(200 <= status < 300) && status != 404 ==> (r matches Err(e) && e.spec_kind()
            == ErrorKind::TransportFailure),
{
    if status == 404 {
        Err(WeedFSError::simple(ErrorKind::NotFound))
    } else if 200 <= status && status < 300 {
        Ok(())
    } else {
        Err(WeedFSError::simple(ErrorKind::TransportFailure))
    }
}

/// Decide whether an upload source may be sent at all: it must denote a
/// regular file and hold at least one byte — a zero-length or
/// non-regular source is rejected before any network call.
pub fn validate_upload_source(is_regular_file: bool, byte_len: u64) -> (r: Result<
    (),
    WeedFSError,
>)
    ensures
        !is_regular_file ==> (r matches Err(e) && e.spec_kind() == ErrorKind::InvalidInput),
        is_regular_file && byte_len == 0 ==> (r matches Err(e) && e.spec_kind()
            == ErrorKind::InvalidInput),
        is_regular_file && byte_len > 0 ==> r is Ok,
{
    if !is_regular_file {
        Err(WeedFSError::simple(ErrorKind::InvalidInput))
    } else if byte_len == 0 {
        Err(WeedFSError::simple(ErrorKind::InvalidInput))
    } else {
        Ok(())
    }
}

// ---------------------------------------------------------------------
// Whole-buffer read accumulation
// ---------------------------------------------------------------------

/// One step of draining a download stream into a single buffer: the
/// bytes read so far, extended by the next chunk, in order and complete.
pub fn append_chunk(buf: Vec<u8>, chunk: &[u8]) -> (r: Vec<u8>)
    ensures
        r@ == buf@ + chunk@,
{
    let mut b = buf;
    let ghost start = b@;
    let mut i: usize = 0;
    while i < chunk.len()
        invariant
            i <= chunk@.len(),
            b@ == start + chunk@.take(i as int),
        decreases chunk@.len() - i,
    {
        b.push(chunk[i]);
        proof {
            assert(chunk@.take(i + 1) =~= chunk@.take(i as int).push(chunk@[i as int]));
        }
        i = i + 1;
    }
    proof {
        assert(chunk@.take(chunk@.len() as int) =~= chunk@);
    }
    b
}

} // verus!
