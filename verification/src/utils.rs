//! The pure string-format knowledge of the protocol: the file-id codec
//! (`<volumeId>,<fileKey>[,cookie]`), the physical upload/download URL
//! resolver, and multipart filename sanitization.

use vstd::prelude::*;
use vstd::string::StrSliceExecFns;
use vstd::string::StringExecFns;
use vstd::utf8::*;

use crate::error::ErrorKind;
use crate::error::WeedFSError;
use crate::types::responses::AssignResponse;
use crate::types::Location;

verus! {

// ---------------------------------------------------------------------
// File-ID codec
// ---------------------------------------------------------------------

/// Whether `c` is an ASCII decimal digit.
pub open spec fn is_digit_char(c: char) -> bool {
    48 <= c as int && c as int <= 57
}

/// The numeric value of an ASCII decimal digit.
pub open spec fn digit_val(c: char) -> nat {
    (c as int - 48) as nat
}

/// The number a sequence of decimal digits denotes, most significant
/// digit first.
pub open spec fn digits_value(s: Seq<char>) -> nat
    decreases s.len(),
{
    if s.len() == 0 {
        0
    } else {
        digits_value(s.drop_last()) * 10 + digit_val(s.last())
    }
}

/// Whether every character of `s` is an ASCII decimal digit.
pub open spec fn all_digits(s: Seq<char>) -> bool {
    forall|i: int| 0 <= i < s.len() ==> is_digit_char(#[trigger] s[i])
}

/// Whether `s` contains the `,` separator a file id must have.
pub open spec fn has_separator(s: Seq<char>) -> bool {
    exists|i: int| 0 <= i < s.len() && #[trigger] s[i] == ','
}

/// The index of the first `,` in `s` (equal to `s.len()` when there is
/// none).
pub open spec fn separator_pos(s: Seq<char>) -> int
    decreases s.len(),
{
    if s.len() == 0 {
        0
    } else if s[0] == ',' {
        0
    } else {
        1 + separator_pos(s.drop_first())
    }
}

/// The volume-id prefix of a file id: everything before the first `,`.
pub open spec fn volume_prefix(s: Seq<char>) -> Seq<char> {
    s.take(separator_pos(s))
}

/// A structurally valid file id: it has the separator, and a non-empty,
/// all-digit volume-id prefix.
pub open spec fn valid_file_id(s: Seq<char>) -> bool {
    has_separator(s) && volume_prefix(s).len() > 0 && all_digits(volume_prefix(s))
}

/// The volume id a valid file id names.
pub open spec fn volume_id_of(s: Seq<char>) -> nat {
    digits_value(volume_prefix(s))
}

/// The first `,` of `s` at index `i` pins `separator_pos(s)` to `i`.
pub proof fn lemma_separator_pos_found(s: Seq<char>, i: int)
    requires
        0 <= i < s.len(),
        s[i] == ',',
        forall|j: int| 0 <= j < i ==> s[j] != ',',
    ensures
        separator_pos(s) == i,
    decreases i,
{
    if i > 0 {
        assert forall|j: int| 0 <= j < i - 1 implies s.drop_first()[j] != ',' by {
            assert(s.drop_first()[j] == s[j + 1]);
        }
        lemma_separator_pos_found(s.drop_first(), i - 1);
    }
}

proof fn lemma_digits_value_step(s: Seq<char>, j: int)
    requires
        0 <= j < s.len(),
    ensures
        digits_value(s.take(j + 1)) == digits_value(s.take(j)) * 10 + digit_val(s[j]),
{
    assert(s.take(j + 1).drop_last() =~= s.take(j));
    assert(s.take(j + 1).last() == s[j]);
}

proof fn lemma_digits_value_prefix_le(s: Seq<char>, j: int)
    requires
        0 <= j <= s.len(),
    ensures
        digits_value(s.take(j)) <= digits_value(s),
    decreases s.len() - j,
{
    if j == s.len() {
        assert(s.take(j) =~= s);
    } else {
        lemma_digits_value_step(s, j);
        lemma_digits_value_prefix_le(s, j + 1);
    }
}

fn find_comma(s: &str) -> (r: Option<usize>)
    ensures
        r matches Some(i) ==> i < s@.len() && s@[i as int] == ',' && (forall|j: int|
            0 <= j < i ==> s@[j] != ','),
        r is None ==> forall|j: int| 0 <= j < s@.len() ==> s@[j] != ',',
{
    let n = s.unicode_len();
    let mut i: usize = 0;
    while i < n
        invariant
            i <= n,
            n == s@.len(),
            forall|j: int| 0 <= j < i ==> s@[j] != ',',
        decreases n - i,
    {
        let c = s.get_char(i);
        if c == ',' {
            return Some(i);
        }
        i = i + 1;
    }
    None
}

/// Extract the volume id from a file id of the shape
/// `<volumeId>,<fileKey>[,cookie]`.
///
/// Succeeds exactly on file ids whose separator is present and whose
/// prefix is a non-empty run of decimal digits denoting a number that
/// fits in a `u64`; every failure is a `MalformedFileId`.
pub fn get_volume_id(fid: &str) -> (r: Result<u64, WeedFSError>)
    ensures
        r is Ok <==> valid_file_id(fid@) && volume_id_of(fid@) <= u64::MAX,
        r matches Ok(v) ==> v as nat == volume_id_of(fid@),
        r matches Err(e) ==> e.spec_kind() == ErrorKind::MalformedFileId,
{
    let sep = match find_comma(fid) {
        None => {
            return Err(WeedFSError::simple(ErrorKind::MalformedFileId));
        },
        Some(i) => i,
    };
    proof {
        lemma_separator_pos_found(fid@, sep as int);
    }
    if sep == 0 {
        return Err(WeedFSError::simple(ErrorKind::MalformedFileId));
    }
    let ghost prefix = volume_prefix(fid@);
    let mut acc: u64 = 0;
    let mut j: usize = 0;
    while j < sep
        invariant
            j <= sep,
            0 < sep < fid@.len(),
            sep as int == separator_pos(fid@),
            prefix == volume_prefix(fid@),
            forall|k: int| 0 <= k < j ==> is_digit_char(#[trigger] fid@[k]),
            acc as nat == digits_value(fid@.take(j as int)),
        decreases sep - j,
    {
        let c = fid.get_char(j);
        let u = c as u32;
        if u < 48 || u > 57 {
            assert(!is_digit_char(fid@[j as int]));
            assert(prefix[j as int] == fid@[j as int]);
            return Err(WeedFSError::simple(ErrorKind::MalformedFileId));
        }
        let d = (u - 48) as u64;
        proof {
            lemma_digits_value_step(fid@, j as int);
        }
        let scaled = match acc.checked_mul(10) {
            Some(x) => x,
            None => {
                proof {
                    lemma_overflow_means_too_big(fid@, prefix, j as int, sep as int);
                }
                return Err(WeedFSError::simple(ErrorKind::MalformedFileId));
            },
        };
        let next = match scaled.checked_add(d) {
            Some(x) => x,
            None => {
                proof {
                    lemma_overflow_means_too_big(fid@, prefix, j as int, sep as int);
                }
                return Err(WeedFSError::simple(ErrorKind::MalformedFileId));
            },
        };
        acc = next;
        j = j + 1;
    }
    proof {
        assert(fid@.take(sep as int) =~= prefix);
        assert forall|k: int| 0 <= k < prefix.len() implies is_digit_char(
            #[trigger] prefix[k],
        ) by {
            assert(prefix[k] == fid@[k]);
        }
    }
    Ok(acc)
}

proof fn lemma_overflow_means_too_big(s: Seq<char>, prefix: Seq<char>, j: int, sep: int)
    requires
        prefix == s.take(sep),
        0 <= j < sep <= s.len(),
        digits_value(s.take(j)) * 10 + digit_val(s[j]) > u64::MAX,
    ensures
        digits_value(prefix) > u64::MAX,
{
    lemma_digits_value_step(s, j);
    assert(s.take(j + 1) =~= prefix.take(j + 1));
    lemma_digits_value_prefix_le(prefix, j + 1);
}

// ---------------------------------------------------------------------
// URL resolver
// ---------------------------------------------------------------------

/// Whether `url::Url::parse` accepts `s`; a function of the string alone.
pub uninterp spec fn url_parse_ok(s: Seq<char>) -> bool;

/// Relies on url::Url::parse: whether a string parses as an absolute URL
/// depends on the string alone.
#[verifier::external_body]
fn url_parses(s: &str) -> (r: bool)
    ensures
        r == url_parse_ok(s@),
{
    url::Url::parse(s).is_ok()
}

/// A physical-object URL the resolver has assembled and checked: exactly
/// the assembled string, known to parse as a URL.
#[derive(Clone, Debug)]
pub struct FileUrl {
    url: String,
}

impl FileUrl {
    /// The URL string, as an abstract value.
    pub closed spec fn spec_str(&self) -> Seq<char> {
        self.url@
    }

    /// Whether the held string parses as a URL; true of everything the
    /// resolver hands out.
    pub closed spec fn wf(&self) -> bool {
        url_parse_ok(self.url@)
    }

    /// The URL string, for the transport to parse and send to.
    pub fn as_str(&self) -> (r: &str)
        ensures
            r@ == self.spec_str(),
    {
        self.url.as_str()
    }
}

/// The characters of the scheme prefixed when a base URL has none.
pub open spec fn scheme_prefix_chars() -> Seq<char> {
    seq!['h', 't', 't', 'p', ':', '/', '/']
}

/// Whether `c` may start a URL scheme: an ASCII letter.
pub open spec fn is_scheme_start_char(c: char) -> bool {
    (65 <= c as int && c as int <= 90) || (97 <= c as int && c as int <= 122)
}

/// Whether `c` may continue a URL scheme: an ASCII letter or digit, or
/// `+`, `-` or `.`.
pub open spec fn is_scheme_char(c: char) -> bool {
    ||| is_scheme_start_char(c)
    ||| (48 <= c as int && c as int <= 57)
    ||| c == '+'
    ||| c == '-'
    ||| c == '.'
}

/// Whether a scheme of `s` ends at index `i`: a letter, then scheme
/// characters up to `i`, then `://`.
pub open spec fn scheme_end_at(s: Seq<char>, i: int) -> bool {
    &&& 1 <= i
    &&& i + 3 <= s.len()
    &&& s[i] == ':'
    &&& s[i + 1] == '/'
    &&& s[i + 2] == '/'
    &&& is_scheme_start_char(s[0])
    &&& forall|j: int| 0 < j < i ==> is_scheme_char(#[trigger] s[j])
}

/// Whether `s` begins with a scheme — `letter (letter|digit|+|-|.)*`
/// followed by `://`, the form server bases carry one in. A bare
/// `host:port` base has none and gets `http://` prepended.
pub open spec fn has_scheme(s: Seq<char>) -> bool {
    exists|i: int| #[trigger] scheme_end_at(s, i)
}

/// The canonical physical-object URL string for `fid` on the server
/// advertised as `base`: the base, prefixed with `http://` when it names
/// no scheme, then `/`, then the file id.
pub open spec fn file_url_chars(fid: Seq<char>, base: Seq<char>) -> Seq<char> {
    if has_scheme(base) {
        base + seq!['/'] + fid
    } else {
        scheme_prefix_chars() + base + seq!['/'] + fid
    }
}

/// Law: the resolver is a pure function of the file id and the base URL,
/// and a base without a scheme gets `http://` prepended exactly once —
/// the result always carries a scheme, and a base that already has one
/// is taken as it stands.
pub proof fn lemma_file_url_scheme(fid: Seq<char>, base: Seq<char>)
    ensures
        has_scheme(base) ==> file_url_chars(fid, base) == base + seq!['/'] + fid,
        !has_scheme(base) ==> file_url_chars(fid, base) == scheme_prefix_chars() + base
            + seq!['/'] + fid,
        has_scheme(file_url_chars(fid, base)),
{
    let r = file_url_chars(fid, base);
    if has_scheme(base) {
        let i = choose|i: int| scheme_end_at(base, i);
        assert(scheme_end_at(r, i));
    } else {
        assert(r[0] == 'h' && r[1] == 't' && r[2] == 't' && r[3] == 'p');
        assert(r[4] == ':' && r[5] == '/' && r[6] == '/');
        assert(scheme_end_at(r, 4));
    }
}

/// Law: resolving is deterministic — the same file id and base URL always
/// give the same URL string.
pub proof fn lemma_file_url_deterministic(
    fid1: Seq<char>,
    base1: Seq<char>,
    fid2: Seq<char>,
    base2: Seq<char>,
)
    requires
        fid1 == fid2,
        base1 == base2,
    ensures
        file_url_chars(fid1, base1) == file_url_chars(fid2, base2),
{
}

fn is_scheme_start(c: char) -> (r: bool)
    ensures
        r == is_scheme_start_char(c),
{
    let u = c as u32;
    (65 <= u && u <= 90) || (97 <= u && u <= 122)
}

fn is_scheme_continue(c: char) -> (r: bool)
    ensures
        r == is_scheme_char(c),
{
    let u = c as u32;
    (65 <= u && u <= 90) || (97 <= u && u <= 122) || (48 <= u && u <= 57) || u == 43 || u == 45
        || u == 46
}

fn has_scheme_str(s: &str) -> (r: bool)
    ensures
        r == has_scheme(s@),
{
    let n = s.unicode_len();
    if n == 0 {
        return false;
    }
    if !is_scheme_start(s.get_char(0)) {
        return false;
    }
    let mut i: usize = 1;
    while i < n
        invariant
            1 <= i <= n,
            n == s@.len(),
            is_scheme_start_char(s@[0]),
            forall|j: int| 0 < j < i ==> is_scheme_char(#[trigger] s@[j]),
        decreases n - i,
    {
        let c = s.get_char(i);
        if c == ':' {
            if n - i > 2 {
                if s.get_char(i + 1) == '/' && s.get_char(i + 2) == '/' {
                    proof {
                        assert(scheme_end_at(s@, i as int));
                    }
                    return true;
                }
            }
            proof {
                assert forall|k: int| !(#[trigger] scheme_end_at(s@, k)) by {
                    if 0 < k < i {
                        assert(is_scheme_char(s@[k]));
                    }
                }
            }
            return false;
        }
        if !is_scheme_continue(c) {
            proof {
                assert forall|k: int| !(#[trigger] scheme_end_at(s@, k)) by {
                    if 0 < k < i {
                        assert(is_scheme_char(s@[k]));
                    }
                }
            }
            return false;
        }
        i = i + 1;
    }
    proof {
        assert forall|k: int| !(#[trigger] scheme_end_at(s@, k)) by {
            if 0 < k < n {
                assert(is_scheme_char(s@[k]));
            }
        }
    }
    false
}

fn get_file_url(fid: &str, base: &str) -> (r: Result<FileUrl, WeedFSError>)
    ensures
        r is Ok <==> url_parse_ok(file_url_chars(fid@, base@)),
        r matches Ok(u) ==> u.spec_str() == file_url_chars(fid@, base@) && u.wf(),
        r matches Err(e) ==> e.spec_kind() == ErrorKind::InvalidInput,
{
    let mut s = String::new();
    if !has_scheme_str(base) {
        s.append("http://");
    }
    s.append(base);
    s.append("/");
    s.append(fid);
    proof {
        reveal_strlit("http://");
        reveal_strlit("/");
        assert(("http://")@ =~= scheme_prefix_chars());
        assert(("/")@ =~= seq!['/']);
        assert(s@ =~= file_url_chars(fid@, base@));
    }
    if url_parses(s.as_str()) {
        Ok(FileUrl { url: s })
    } else {
        Err(WeedFSError::simple(ErrorKind::InvalidInput))
    }
}

/// The URL the physical upload of a ticket must be POSTed to: the
/// ticket's public base URL plus its file id.
///
/// No replica/version suffix is appended for tickets minted with a count
/// above one; the wire format of such a suffix is unconfirmed, so
/// multi-count tickets are the caller's to address.
pub fn get_write_url(assign_response: &AssignResponse) -> (r: Result<FileUrl, WeedFSError>)
    ensures
        r is Ok <==> url_parse_ok(
            file_url_chars(assign_response.fid@, assign_response.public_url@),
        ),
        r matches Ok(u) ==> u.spec_str() == file_url_chars(
            assign_response.fid@,
            assign_response.public_url@,
        ) && u.wf(),
        r matches Err(e) ==> e.spec_kind() == ErrorKind::InvalidInput,
{
    get_file_url(assign_response.fid.as_str(), assign_response.public_url.as_str())
}

/// The URL a stored file id is fetched from on one of its replica
/// locations.
pub fn get_read_url(fid: &str, location: &Location) -> (r: Result<FileUrl, WeedFSError>)
    ensures
        r is Ok <==> url_parse_ok(file_url_chars(fid@, location.public_url@)),
        r matches Ok(u) ==> u.spec_str() == file_url_chars(fid@, location.public_url@) && u.wf(),
        r matches Err(e) ==> e.spec_kind() == ErrorKind::InvalidInput,
{
    get_file_url(fid, location.public_url.as_str())
}

// ---------------------------------------------------------------------
// Filename sanitization
// ---------------------------------------------------------------------

/// The stand-in name used when a caller passes an empty filename.
pub open spec fn default_filename_chars() -> Seq<char> {
    seq!['f', 'i', 'l', 'e']
}

proof fn lemma_encode_utf8_len_at_least(s: Seq<char>)
    ensures
        encode_utf8(s).len() >= s.len(),
    decreases s.len(),
{
    if s.len() > 0 {
        lemma_encode_utf8_len_at_least(s.drop_first());
        assert(encode_scalar(s[0] as u32).len() >= 1);
    }
}

/// The largest character boundary of `bytes` not above `i`.
pub open spec fn boundary_at_or_below(bytes: Seq<u8>, i: int) -> int
    decreases i,
{
    if i <= 0 {
        0
    } else if is_char_boundary(bytes, i) {
        i
    } else {
        boundary_at_or_below(bytes, i - 1)
    }
}

/// What sanitization yields: an empty name becomes `file`, a name of at
/// most 255 bytes passes unchanged, and a longer one is cut at the
/// largest character boundary not above 255 bytes.
pub open spec fn sanitize_chars(s: Seq<char>) -> Seq<char> {
    if s.len() == 0 {
        default_filename_chars()
    } else if encode_utf8(s).len() <= 255 {
        s
    } else {
        decode_utf8(encode_utf8(s).subrange(0, boundary_at_or_below(encode_utf8(s), 255)))
    }
}

proof fn lemma_boundary_pin(bytes: Seq<u8>, end: int, i: int)
    requires
        0 <= end <= i,
        is_char_boundary(bytes, end),
        forall|j: int| end < j <= i ==> !(#[trigger] is_char_boundary(bytes, j)),
    ensures
        boundary_at_or_below(bytes, i) == end,
    decreases i,
{
    if i > end {
        lemma_boundary_pin(bytes, end, i - 1);
    }
}

proof fn lemma_boundary_ge(bytes: Seq<u8>, lo: int, i: int)
    requires
        0 <= lo <= i,
        is_char_boundary(bytes, lo),
    ensures
        lo <= boundary_at_or_below(bytes, i) <= i,
        is_char_boundary(bytes, boundary_at_or_below(bytes, i)),
    decreases i,
{
    if i <= 0 || is_char_boundary(bytes, i) {
    } else {
        lemma_boundary_ge(bytes, lo, i - 1);
    }
}

proof fn lemma_first_scalar_boundary(bytes: Seq<u8>)
    requires
        valid_utf8(bytes),
        bytes.len() > 0,
    ensures
        1 <= length_of_first_scalar(bytes) <= 4,
        length_of_first_scalar(bytes) <= bytes.len(),
        is_char_boundary(bytes, length_of_first_scalar(bytes)),
{
    reveal_with_fuel(is_char_boundary, 2);
}

/// Law: sanitization is total and bounded — for every filename the
/// result is non-empty and at most 255 bytes long.
pub proof fn lemma_sanitize_bounds(s: Seq<char>)
    ensures
        sanitize_chars(s).len() > 0,
        encode_utf8(sanitize_chars(s)).len() <= 255,
{
    if s.len() == 0 {
        assert(is_ascii_chars(default_filename_chars()));
        is_ascii_chars_encode_utf8(default_filename_chars());
    } else {
        let bytes = encode_utf8(s);
        encode_utf8_valid_utf8(s);
        if bytes.len() > 255 {
            lemma_first_scalar_boundary(bytes);
            lemma_boundary_ge(bytes, length_of_first_scalar(bytes), 255);
            let cut = boundary_at_or_below(bytes, 255);
            valid_utf8_split(bytes, cut);
            let prefix = bytes.subrange(0, cut);
            decode_utf8_encode_utf8(prefix);
            if decode_utf8(prefix).len() == 0 {
                assert(encode_utf8(decode_utf8(prefix)).len() == 0);
            }
        }
    }
}

/// Law: sanitization is idempotent — every result is a fixed point,
/// being itself non-empty and at most 255 bytes.
pub proof fn lemma_sanitize_idempotent(s: Seq<char>)
    ensures
        sanitize_chars(sanitize_chars(s)) == sanitize_chars(s),
{
    lemma_sanitize_bounds(s);
}

/// Make a filename usable in the multipart filename field, whatever the
/// caller passes: an empty name becomes `file`, a name longer than 255
/// bytes is cut at the largest character boundary not above 255 bytes,
/// anything else passes unchanged — so the result is never empty and
/// never longer than 255 bytes.
pub fn sanitize_filename(filename: String) -> (r: String)
    ensures
        r@ == sanitize_chars(filename@),
        r@.len() > 0,
        encode_utf8(r@).len() <= 255,
{
    proof {
        lemma_sanitize_bounds(filename@);
    }
    let len = filename.as_str().as_bytes().len();
    if len == 0 {
        proof {
            lemma_encode_utf8_len_at_least(filename@);
            reveal_strlit("file");
        }
        let r = "file".to_owned();
        proof {
            assert(r@ =~= default_filename_chars());
        }
        r
    } else if len > 255 {
        let ghost bytes = encode_utf8(filename@);
        proof {
            encode_utf8_valid_utf8(filename@);
            lemma_first_scalar_boundary(bytes);
        }
        let mut end: usize = 255;
        while !filename.as_str().is_char_boundary(end)
            invariant
                1 <= end <= 255,
                bytes == encode_utf8(filename@),
                bytes.len() > 255,
                valid_utf8(bytes),
                1 <= length_of_first_scalar(bytes) <= 4,
                is_char_boundary(bytes, length_of_first_scalar(bytes)),
                forall|j: int| end < j <= 255 ==> !(#[trigger] is_char_boundary(bytes, j)),
            decreases end,
        {
            proof {
                assert(length_of_first_scalar(bytes) < end);
            }
            end = end - 1;
        }
        proof {
            lemma_boundary_pin(bytes, end as int, 255);
        }
        let (head, _) = filename.as_str().split_at(end);
        let r = head.to_owned();
        proof {
            valid_utf8_split(bytes, end as int);
            encode_utf8_decode_utf8(r@);
            assert(encode_utf8(r@) =~= bytes.subrange(0, end as int));
        }
        r
    } else {
        proof {
            if filename@.len() == 0 {
                assert(encode_utf8(filename@).len() == 0);
            }
        }
        filename
    }
}

} // verus!
