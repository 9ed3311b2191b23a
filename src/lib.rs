//! A log sink that ships each formatted record to a search backend as one
//! HTTP document, authenticated with fixed credentials.

use vstd::prelude::*;
use vstd::utf8::{decode_utf8, pop_first_scalar, valid_utf8};

mod transport;

pub use transport::{Delivery, PostRequest, Transport, CONTENT_TYPE};

verus! {

/// What a byte buffer decodes to as UTF-8 text: `Some` of its characters when
/// the bytes are well formed, `None` otherwise.
pub open spec fn utf8_text(bytes: Seq<u8>) -> Option<Seq<char>> {
    if valid_utf8(bytes) {
        Some(decode_utf8(bytes))
    } else {
        None
    }
}

/// A buffer of ASCII bytes is text, one character per byte.
pub proof fn lemma_ascii_is_text(b: Seq<u8>)
    requires
        forall|i: int| 0 <= i < b.len() ==> b[i] < 128,
    ensures
        utf8_text(b) == Some(b.map_values(|x: u8| x as char)),
    decreases b.len(),
{
    if b.len() > 0 {
        let x = b[0];
        assert(x & 0x7f == x) by (bit_vector)
            requires
                x < 128,
        ;
        let rest = b.subrange(1, b.len() as int);
        assert(pop_first_scalar(b) == rest);
        lemma_ascii_is_text(rest);
        assert(b.map_values(|x: u8| x as char) =~= seq![x as char] + rest.map_values(|x: u8| x as char));
    } else {
        assert(b.map_values(|x: u8| x as char) =~= Seq::<char>::empty());
    }
}

/// Relies on `String::from_utf8`: it succeeds exactly when the bytes are valid
/// UTF-8, and then holds the text they encode.
#[verifier::external_body]
fn string_from_utf8(bytes: Vec<u8>) -> (r: Option<String>)
    ensures
        r is Some <==> valid_utf8(bytes@),
        r is Some ==> r->Some_0@ == decode_utf8(bytes@),
{
    String::from_utf8(bytes).ok()
}

/// Decodes a record as UTF-8 text, or gives `None` where it is not valid UTF-8.
pub fn record_text(buf: &[u8]) -> (r: Option<String>)
    ensures
        r is Some <==> utf8_text(buf@) is Some,
        r is Some ==> utf8_text(buf@) == Some(r->Some_0@),
        buf@.len() == 0 ==> r is Some && r->Some_0@.len() == 0,
{
    string_from_utf8(vstd::slice::slice_to_vec(buf))
}

/// The one way a write can fail: the transport could not deliver the
/// document. It carries the transport's own error as its cause.
#[derive(Debug)]
pub enum SinkError {
    DeliveryFailed(reqwest::Error),
}

impl SinkError {
    /// The transport failure behind this error.
    pub fn cause(&self) -> (r: &reqwest::Error)
        ensures
            *self == SinkError::DeliveryFailed(*r),
    {
        match self {
            SinkError::DeliveryFailed(e) => e,
        }
    }
}

/// What a sink is, in plain values: its frozen configuration and every POST
/// it has handed to the transport so far, oldest first.
pub struct SinkModel {
    pub url: Seq<char>,
    pub user: Seq<char>,
    pub password: Seq<char>,
    pub deliveries: Seq<Delivery>,
}

/// The POST that a sink with model `m` makes for the text `body`.
pub open spec fn delivery_of(m: SinkModel, body: Seq<char>) -> Delivery {
    Delivery {
        url: m.url,
        user: m.user,
        password: m.password,
        content_type: CONTENT_TYPE@,
        body,
    }
}

/// The configuration of `post` is that of `pre`.
pub open spec fn same_config(pre: SinkModel, post: SinkModel) -> bool {
    &&& post.url == pre.url
    &&& post.user == pre.user
    &&& post.password == pre.password
}

/// What the answer of the transport makes of a write of `len` bytes.
pub open spec fn outcome_of(len: nat, sent: Result<(), reqwest::Error>) -> Result<usize, SinkError> {
    match sent {
        Ok(()) => Ok(len as usize),
        Err(e) => Err(SinkError::DeliveryFailed(e)),
    }
}

/// The relation between a sink before (`pre`) and after (`post`) a write of
/// `buf` that returned `r`. A buffer that is not UTF-8 is consumed whole with
/// nothing sent. Text is sent as exactly one POST; the write then reports the
/// whole buffer, or the transport's failure.
pub open spec fn wrote(pre: SinkModel, buf: Seq<u8>, post: SinkModel, r: Result<usize, SinkError>) -> bool {
    &&& same_config(pre, post)
    &&& match utf8_text(buf) {
        None => {
            &&& post.deliveries == pre.deliveries
            &&& r == Ok::<usize, SinkError>(buf.len() as usize)
        },
        Some(text) => {
            &&& post.deliveries == pre.deliveries.push(delivery_of(pre, text))
            &&& exists|sent: Result<(), reqwest::Error>| r == outcome_of(buf.len(), sent)
        },
    }
}

/// A write's result with its byte count dropped.
pub open spec fn without_count(r: Result<usize, SinkError>) -> Result<(), SinkError> {
    match r {
        Ok(_) => Ok(()),
        Err(e) => Err(e),
    }
}

/// `write_all` succeeds exactly when the write it makes succeeds, and fails
/// with that write's own error otherwise.
pub proof fn lemma_write_all_succeeds_iff_write(w: Result<usize, SinkError>)
    ensures
        without_count(w) is Ok <==> w is Ok,
        w is Err ==> without_count(w) == Err::<(), SinkError>(w->Err_0),
{
}

/// Maps the transport's answer for a write of `len` bytes to what the write
/// reports: the whole length on any response, whatever its status, and the
/// transport's failure as `DeliveryFailed` otherwise.
pub fn report(len: usize, sent: Result<(), reqwest::Error>) -> (r: Result<usize, SinkError>)
    ensures
        r == outcome_of(len as nat, sent),
{
    match sent {
        Ok(()) => Ok(len),
        Err(e) => Err(SinkError::DeliveryFailed(e)),
    }
}

/// Drops the byte count of a write's result.
pub fn discard_count(r: Result<usize, SinkError>) -> (o: Result<(), SinkError>)
    ensures
        o == without_count(r),
{
    match r {
        Ok(_) => Ok(()),
        Err(e) => Err(e),
    }
}

/// A sink that posts each record to a fixed document endpoint of a search
/// backend, over one HTTP client held for the sink's whole life.
pub struct ElasticLogWriter {
    transport: Transport,
    user: String,
    password: String,
    url: String,
}

impl View for ElasticLogWriter {
    type V = SinkModel;

    closed spec fn view(&self) -> SinkModel {
        SinkModel {
            url: self.url@,
            user: self.user@,
            password: self.password@,
            deliveries: self.transport.sent(),
        }
    }
}

impl ElasticLogWriter {
    /// A sink for the document endpoint `url` that authenticates as `user`
    /// with `password`. Nothing is checked here: a bad URL fails at the
    /// first write.
    pub fn new(url: &str, user: &str, password: &str) -> (r: ElasticLogWriter)
        ensures
            r@.url == url@,
            r@.user == user@,
            r@.password == password@,
            r@.deliveries == Seq::<Delivery>::empty(),
    {
        broadcast use vstd::string::to_string_from_display_ensures_for_str;
        ElasticLogWriter {
            transport: Transport::new(),
            user: user.to_string(),
            password: password.to_string(),
            url: url.to_string(),
        }
    }

    /// The POST this sink makes for the text `body`.
    pub fn request_for(&self, body: String) -> (r: PostRequest)
        ensures
            r@ == delivery_of(self@, body@),
    {
        PostRequest {
            url: self.url.clone(),
            user: self.user.clone(),
            password: self.password.clone(),
            content_type: CONTENT_TYPE,
            body,
        }
    }

    /// Ships one record. A buffer that is not valid UTF-8 is dropped and
    /// reported as written in full; text is posted as is, and the whole
    /// length is reported unless the transport fails.
    pub fn write(&mut self, buf: &[u8]) -> (r: Result<usize, SinkError>)
        ensures
            wrote(old(self)@, buf@, final(self)@, r),
    {
        let text = match record_text(buf) {
            Some(t) => t,
            None => {
                return Ok(buf.len());
            },
        };
        let req = self.request_for(text);
        let sent = self.transport.send_post(req);
        let r = report(buf.len(), sent);
        assert(r == outcome_of(buf@.len(), sent));
        r
    }

    /// Nothing is buffered, so there is nothing to flush.
    pub fn flush(&mut self) -> (r: Result<(), SinkError>)
        ensures
            r is Ok,
            final(self)@ == old(self)@,
    {
        Ok(())
    }

    /// A write that reports success or failure without the byte count.
    pub fn write_all(&mut self, buf: &[u8]) -> (r: Result<(), SinkError>)
        ensures
            exists|w: Result<usize, SinkError>|
                wrote(old(self)@, buf@, final(self)@, w) && r == without_count(w),
    {
        let w = self.write(buf);
        discard_count(w)
    }
}

} // verus!
