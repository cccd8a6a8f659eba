//! A database opened once and shared by all lookups.

use vstd::prelude::*;
use crate::address::{IpAddress, address_syntax, parse_address};
use crate::document::{doc_model, from_document};
use crate::error::{Error, ErrorKind, lookup_error, open_error};
use crate::value::{DocTree, GenericValue, lemma_conversion_is_exact, represents, same_tree, well_formed};

verus! {

/// A `maxminddb::Reader` over the database's bytes. It is held opaque:
/// Verus cannot take that type's `AsRef<[u8]>` bound.
#[verifier::external_body]
pub struct Decoder {
    inner: maxminddb::Reader<Vec<u8>>,
}

/// Why the decoder refuses a database's bytes, if it does.
pub uninterp spec fn open_failure(buf: Seq<u8>) -> Option<Seq<char>>;

/// What the database held in a byte string answers for each address, once
/// the decoder accepts it.
pub uninterp spec fn database_answers(buf: Seq<u8>) -> Map<IpAddress, Answer>;

/// Relies on `maxminddb::Reader::from_source`: it reads and validates the
/// metadata and the layout of the search tree of the database held in
/// `buf`, checking every offset against the buffer's length, and reports an
/// error where they are not valid, here taken as its text. It reads `buf`
/// alone, and builds only `InvalidDatabase`, `Decoding`, `ResourceLimit` or
/// `InvalidInput` errors, whose text is made of their own strings and
/// numbers; so whether it accepts, why not, and what the reader then
/// answers, depend on the bytes alone.
#[verifier::external_body]
fn decoder_from_bytes(buf: Vec<u8>) -> (r: Result<Decoder, String>)
    ensures
        (r is Err) <==> open_failure(buf@) is Some,
        r is Err ==> r->Err_0@ == open_failure(buf@)->Some_0,
        r is Ok ==> answers(r->Ok_0) == database_answers(buf@),
{
    maxminddb::Reader::from_source(buf).map(|inner| Decoder { inner }).map_err(|e| e.to_string())
}

/// The description of an `InvalidInput` failure.
pub const INVALID_ADDRESS: &'static str = "invalid IP address";

/// What a database answers for one address: the record stored for it (as
/// a document), that it holds none, or a failure with its description.
pub enum Answer {
    Found(DocTree),
    Absent,
    Failed(Seq<char>),
}

/// The answer that a decoder result stands for.
pub open spec fn answer_of(res: Result<Option<serde_json::Value>, String>) -> Answer {
    match res {
        Ok(Some(v)) => Answer::Found(doc_model(v)),
        Ok(None) => Answer::Absent,
        Err(m) => Answer::Failed(m@),
    }
}

/// What a decoder holds: its answer for each address. A decoder is never
/// changed, so it gives one address the same answer each time.
pub uninterp spec fn answers(d: Decoder) -> Map<IpAddress, Answer>;

/// Relies on `maxminddb::Reader::lookup` and `maxminddb::LookupResult::decode`
/// into a `serde_json::Value`, made together because the lookup result
/// borrows the reader: the record stored for `ip`, `None` where the database
/// holds none, or an error, taken as its text, where the database is
/// malformed or cannot hold such an address (an IPv6 address in an IPv4
/// database). Both check every offset against the buffer, read the
/// decoder's bytes and nothing else, and build only `InvalidDatabase`,
/// `Decoding`, `ResourceLimit` or `InvalidInput` errors, whose text is made
/// of their own strings and numbers; so the result depends on the decoder
/// and `ip` alone.
#[verifier::external_body]
fn decoder_lookup(decoder: &Decoder, ip: IpAddress) -> (r: Result<
    Option<serde_json::Value>,
    String,
>)
    ensures
        answer_of(r) == answers(*decoder)[ip],
{
    let address = match ip {
        IpAddress::V4(bits) => core::net::IpAddr::V4(core::net::Ipv4Addr::from(bits)),
        IpAddress::V6(bits) => core::net::IpAddr::V6(core::net::Ipv6Addr::from(bits)),
    };
    decoder.inner.lookup(address).and_then(|found| found.decode::<serde_json::Value>()).map_err(
        |e| e.to_string(),
    )
}

/// An opened database. It is never changed after it is opened.
pub struct DatabaseHandle {
    decoder: Decoder,
}

/// `r` is what opening reports when the decoder answered `res`.
pub open spec fn open_agrees(
    res: Result<Decoder, String>,
    r: Result<DatabaseHandle, Error>,
) -> bool {
    match res {
        Ok(d) => r is Ok && r->Ok_0.decoder_spec() == d,
        Err(m) => r is Err && r->Err_0.kind == ErrorKind::IOError && r->Err_0.message@ == m@,
    }
}

/// `r` is what a lookup reports for the answer `a`: the converted record,
/// absence, or a `LookupError` with the decoder's description.
pub open spec fn answer_agrees(a: Answer, r: Result<Option<GenericValue>, Error>) -> bool {
    match a {
        Answer::Found(d) => r is Ok && r->Ok_0 is Some && represents(r->Ok_0->Some_0, d)
            && well_formed(r->Ok_0->Some_0),
        Answer::Absent => r is Ok && r->Ok_0 is None,
        Answer::Failed(m) => r is Err && r->Err_0.kind == ErrorKind::LookupError && r->Err_0.message@
            == m,
    }
}

/// `r` is what a lookup reports when the decoder answered `res`.
pub open spec fn lookup_agrees(
    res: Result<Option<serde_json::Value>, String>,
    r: Result<Option<GenericValue>, Error>,
) -> bool {
    answer_agrees(answer_of(res), r)
}

/// `r` is what looking `ip` up in `h` reports: `InvalidInput` for a string
/// that is no address, else what `h` answers for the address.
pub open spec fn get_result(h: DatabaseHandle, ip: Seq<char>, r: Result<Option<GenericValue>, Error>) -> bool {
    match address_syntax(ip) {
        None => r is Err && r->Err_0.kind == ErrorKind::InvalidInput && r->Err_0.message@
            == INVALID_ADDRESS@,
        Some(a) => answer_agrees(answers(h.decoder_spec())[a], r),
    }
}

/// `r1` and `r2` report the same thing: the same tree, both absence, or the
/// same failure.
pub open spec fn same_outcome(r1: Result<Option<GenericValue>, Error>, r2: Result<Option<GenericValue>, Error>) -> bool {
    match r1 {
        Ok(None) => r2 is Ok && r2->Ok_0 is None,
        Ok(Some(g)) => r2 is Ok && r2->Ok_0 is Some && same_tree(g, r2->Ok_0->Some_0),
        Err(e) => r2 is Err && r2->Err_0.kind == e.kind && r2->Err_0.message@ == e.message@,
    }
}

/// Looking one string up twice in one handle reports the same thing both
/// times, whatever came between: the handle holds no state that a lookup
/// changes.
pub proof fn lemma_lookup_is_repeatable(
    h: DatabaseHandle,
    ip: Seq<char>,
    r1: Result<Option<GenericValue>, Error>,
    r2: Result<Option<GenericValue>, Error>,
)
    requires
        get_result(h, ip, r1),
        get_result(h, ip, r2),
    ensures
        same_outcome(r1, r2),
{
    if let Some(a) = address_syntax(ip) {
        if let Answer::Found(d) = answers(h.decoder_spec())[a] {
            lemma_conversion_is_exact(r1->Ok_0->Some_0, r2->Ok_0->Some_0, d);
        }
    }
}

/// The report of a lookup whose decoder answered `res` (an error by its
/// text).
pub fn lookup_outcome(res: Result<Option<serde_json::Value>, String>) -> (r: Result<
    Option<GenericValue>,
    Error,
>)
    ensures
        lookup_agrees(res, r),
{
    match res {
        Ok(Some(v)) => Ok(Some(from_document(&v))),
        Ok(None) => Ok(None),
        Err(m) => Err(lookup_error(m)),
    }
}

impl DatabaseHandle {
    /// The decoder this database is read through.
    pub closed spec fn decoder_spec(&self) -> Decoder {
        self.decoder
    }

    /// The report of opening a database whose decoder answered `res` (an error
/// by its text).
    pub fn open_outcome(res: Result<Decoder, String>) -> (r: Result<
        DatabaseHandle,
        Error,
    >)
        ensures
            open_agrees(res, r),
    {
        match res {
            Ok(decoder) => Ok(DatabaseHandle { decoder }),
            Err(m) => Err(open_error(m)),
        }
    }

    /// Opens the database whose file contents are `buf`. Any failure to read
    /// its metadata or search tree is an `IOError`; an opened handle answers
    /// what those bytes hold.
    pub fn from_bytes(buf: Vec<u8>) -> (r: Result<DatabaseHandle, Error>)
        ensures
            (r is Ok) <==> open_failure(buf@) is None,
            r is Err ==> r->Err_0.kind == ErrorKind::IOError && r->Err_0.message@ == open_failure(
                buf@,
            )->Some_0,
            r is Ok ==> answers(r->Ok_0.decoder_spec()) == database_answers(buf@),
    {
        let res = decoder_from_bytes(buf);
        Self::open_outcome(res)
    }

    /// Looks `ip` up. A string that is not an IPv4 or IPv6 address is an
    /// `InvalidInput`, whatever the database holds; for an address, the
    /// result is the record converted, `None` where the database holds no
    /// record for it, or a `LookupError`.
    pub fn get(&self, ip: &str) -> (r: Result<Option<GenericValue>, Error>)
        ensures
            address_syntax(ip@) is None <==> (r is Err && r->Err_0.kind == ErrorKind::InvalidInput),
            get_result(*self, ip@, r),
    {
        match parse_address(ip) {
            None => Err(Error { kind: ErrorKind::InvalidInput, message: String::from_str(INVALID_ADDRESS) }),
            Some(address) => {
                let res = decoder_lookup(&self.decoder, address);
                lookup_outcome(res)
            },
        }
    }
}

} // verus!
