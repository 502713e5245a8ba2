//! The data side of the coordinator ("scotty") client: the request and
//! response documents of its three RPCs, and the routes they go to.
//!
//! The begin-file call posts a [`FilePostRequest`] to the files route and
//! expects a [`FilePostResponse`]; the end-file call puts a
//! [`FileUpdateRequest`] to the file's own route; the end-session call puts
//! a [`BeamUpdateRequest`] to the beam's route. The unverified HTTP glue
//! encodes these documents as JSON and sends them through the retry policy
//! of [`crate::retry`].

use vstd::prelude::*;

verus! {

/// The begin-file request body: which file of which session is offered.
pub struct FilePostRequest {
    pub file_name: String,
    pub beam_id: u64,
}

/// The begin-file response body: the coordinator's token for the file, the
/// storage name it assigns, and whether the file is to be beamed at all.
pub struct FilePostResponse {
    pub file_id: String,
    pub storage_name: String,
    pub should_beam: bool,
}

/// The end-file request body: how one transfer went.
pub struct FileUpdateRequest {
    pub success: bool,
    pub error: String,
    pub size: Option<u64>,
    pub mtime: Option<u64>,
    pub checksum: Option<String>,
}

impl FileUpdateRequest {
    /// An end-file report: a success exactly when there is no error to
    /// report, with the error text empty then.
    pub fn new(
        error: Option<&str>,
        size: Option<u64>,
        checksum: Option<String>,
        mtime: Option<u64>,
    ) -> (r: Self)
        ensures
            r.success == (error is None),
            error matches Some(e) ==> r.error@ == e@,
            error is None ==> r.error@ == Seq::<char>::empty(),
            r.size == size,
            r.checksum == checksum,
            r.mtime == mtime,
    {
        let error_string = match error {
            Some(e) => e.to_owned(),
            None => String::new(),
        };
        FileUpdateRequest {
            success: error.is_none(),
            error: error_string,
            size,
            checksum,
            mtime,
        }
    }
}

/// The inner document of an end-session report.
pub struct BeamUpdateDocument<'a> {
    pub completed: bool,
    pub error: Option<&'a str>,
}

/// The end-session request body: whether the session completed, and the
/// failure text if it did not.
pub struct BeamUpdateRequest<'a> {
    pub beam: BeamUpdateDocument<'a>,
}

impl<'a> BeamUpdateRequest<'a> {
    /// Wrap an end-session report in its document envelope.
    pub fn new(completed: bool, error: Option<&'a str>) -> (r: BeamUpdateRequest<'a>)
        ensures
            r.beam.completed == completed,
            r.beam.error == error,
    {
        BeamUpdateRequest { beam: BeamUpdateDocument { completed, error } }
    }
}

/// The decimal digit character for `d`.
pub open spec fn spec_dec_digit(d: nat) -> char
    recommends
        d < 10,
{
    ((48 + d) as u8) as char
}

/// The decimal representation of `n`, most significant digit first, with
/// no leading zeros (a single zero for zero).
pub open spec fn spec_dec_str(n: nat) -> Seq<char>
    decreases n,
{
    if n < 10 {
        seq![spec_dec_digit(n)]
    } else {
        spec_dec_str(n / 10).push(spec_dec_digit(n % 10))
    }
}

/// Relies on String::push: appends one character to the string.
#[verifier::external_body]
fn push_char(s: &mut String, c: char)
    ensures
        final(s)@ == old(s)@.push(c),
{
    s.push(c);
}

/// Relies on String::push_str: appends the characters of `t` to the string.
#[verifier::external_body]
fn push_str(s: &mut String, t: &str)
    ensures
        final(s)@ == old(s)@ + t@,
{
    s.push_str(t);
}

/// The character of one decimal digit.
fn dec_digit(d: u64) -> (c: char)
    requires
        d < 10,
    ensures
        c == spec_dec_digit(d as nat),
{
    (48 + d as u8) as char
}

/// Append the decimal representation of `n`.
fn push_dec(n: u64, out: &mut String)
    ensures
        final(out)@ == old(out)@ + spec_dec_str(n as nat),
    decreases n,
{
    if n < 10 {
        push_char(out, dec_digit(n));
        proof {
            assert(old(out)@ + spec_dec_str(n as nat) =~= old(out)@.push(spec_dec_digit(n as nat)));
        }
    } else {
        push_dec(n / 10, out);
        push_char(out, dec_digit(n % 10));
        proof {
            assert(old(out)@ + spec_dec_str(n as nat) =~= (old(out)@ + spec_dec_str(
                (n / 10) as nat,
            )).push(spec_dec_digit((n % 10) as nat)));
        }
    }
}

/// Write `n` in decimal.
pub fn u64_to_dec_string(n: u64) -> (r: String)
    ensures
        r@ == spec_dec_str(n as nat),
{
    let mut s = String::new();
    push_dec(n, &mut s);
    proof {
        assert(s@ =~= spec_dec_str(n as nat));
    }
    s
}

/// The begin-file route under `base`.
pub fn files_url(base: &str) -> (r: String)
    ensures
        r@ == base@ + "/files"@,
{
    let mut s = base.to_owned();
    push_str(&mut s, "/files");
    s
}

/// The end-file route for `file_id` under `base`.
pub fn file_url(base: &str, file_id: &str) -> (r: String)
    ensures
        r@ == base@ + "/files/"@ + file_id@,
{
    let mut s = base.to_owned();
    push_str(&mut s, "/files/");
    push_str(&mut s, file_id);
    s
}

/// The end-session route for `beam_id` under `base`.
pub fn beam_url(base: &str, beam_id: u64) -> (r: String)
    ensures
        r@ == base@ + "/beams/"@ + spec_dec_str(beam_id as nat),
{
    let mut s = base.to_owned();
    push_str(&mut s, "/beams/");
    push_dec(beam_id, &mut s);
    s
}

} // verus!
