//! Upload of the recorded samples to an HTTP server as a JSON array.
use vstd::prelude::*;
use crate::templogs::TempLog;
use crate::text::{decimal, hundredths_text, push_decimal, push_hundredths, push_tenths, tenths_text};

verus! {

/// The JSON object that describes one sample.
pub open spec fn json_item(l: TempLog) -> Seq<char> {
    "{ \"measurement\": \"templogger\", \"tag\": \"tempch1\", \"timestamp\": "@ + decimal(
        l.clock as nat,
    ) + ", \"temp\": "@ + tenths_text(l.pt as int) + ", \"bat\": "@ + hundredths_text(l.vol as nat)
        + " }"@
}

/// The JSON objects of the samples, in order, separated by commas.
pub open spec fn json_items(s: Seq<TempLog>) -> Seq<char>
    decreases s.len(),
{
    if s.len() == 0 {
        Seq::empty()
    } else if s.len() == 1 {
        json_item(s[0])
    } else {
        json_items(s.drop_last()) + ","@ + json_item(s.last())
    }
}

/// The request body that carries the samples: a JSON array.
pub open spec fn json_body(s: Seq<TempLog>) -> Seq<char> {
    "[ "@ + json_items(s) + "]"@
}

/// The length in bytes of the UTF-8 encoding of a text, as `str::len`
/// reports it.
pub open spec fn utf8_len(s: Seq<char>) -> nat {
    (vstd::utf8::encode_utf8(s).len() as usize) as nat
}

/// The HTTP request that posts `body` to `server`.
pub open spec fn request_text(server: Seq<char>, body: Seq<char>) -> Seq<char> {
    "POST / HTTP/1.1\r\nHost: "@ + server + "\r\n"@
        + "Content-Type: application/json\r\nAcept: */*\r\nUser-Agent: temp-logger"@
        + "\r\nContent-Length:"@ + decimal(utf8_len(body)) + "\r\n\r\n"@ + body + "\r\n"@
}

/// What a transfer holds: the server, the body waiting to be sent, and
/// whether a request is pending.
pub ghost struct TransferView {
    pub server: Seq<char>,
    pub body: Seq<char>,
    pub txreq: bool,
}

/// The state after handing `data` over for sending, and the number of
/// samples accepted. Nothing is accepted while a request is pending or when
/// there is nothing to send.
pub open spec fn after_set_transfer(v: TransferView, data: Seq<TempLog>) -> (TransferView, nat) {
    if data.len() == 0 || v.txreq {
        (v, 0)
    } else {
        (TransferView { server: v.server, body: json_body(data), txreq: true }, data.len())
    }
}

/// The state after the sender polls, and the request it is to send, if any.
pub open spec fn after_take_request(v: TransferView) -> (TransferView, Option<Seq<char>>) {
    if v.txreq {
        (TransferView { txreq: false, ..v }, Some(request_text(v.server, v.body)))
    } else {
        (v, None)
    }
}

struct TransferData {
    body: String,
    txreq: bool,
}

/// The hand-over point between the logger and the sending task.
pub struct Transfer {
    data: TransferData,
    server: String,
}

impl View for Transfer {
    type V = TransferView;

    closed spec fn view(&self) -> TransferView {
        TransferView { server: self.server@, body: self.data.body@, txreq: self.data.txreq }
    }
}

impl Transfer {
    /// A transfer to `server` with nothing pending.
    pub fn new(server: String) -> (t: Self)
        ensures
            t@ == (TransferView { server: server@, body: Seq::empty(), txreq: false }),
    {
        Transfer { data: TransferData { body: String::new(), txreq: false }, server: server }
    }

    /// The server that requests go to.
    pub fn server(&self) -> (s: &String)
        ensures
            s@ == self@.server,
    {
        &self.server
    }

    /// Builds the request body from `data` and marks it for sending; returns
    /// the number of samples it holds. Returns 0 and changes nothing when
    /// `data` is empty or an earlier request has not been sent yet.
    pub fn set_transfer_data(&mut self, data: &Vec<TempLog>) -> (count: usize)
        ensures
            (final(self)@, count as nat) == after_set_transfer(old(self)@, data@),
    {
        if data.len() == 0 {
            return 0;
        }
        if self.data.txreq == true {
            return 0;
        }
        let mut body = String::new();
        body.append("[ ");
        let mut count: usize = 0;
        let n = data.len();
        while count < n
            invariant
                n == data@.len(),
                0 < n,
                count <= n,
                body@ == "[ "@ + json_items(data@.take(count as int)),
            decreases n - count,
        {
            let it = &data[count];
            let ghost before = body@;
            if count > 0 {
                body.append(",");
            }
            body.append("{ \"measurement\": \"templogger\", \"tag\": \"tempch1\", \"timestamp\": ");
            push_decimal(&mut body, it.clock as u64);
            body.append(", \"temp\": ");
            push_tenths(&mut body, it.pt);
            body.append(", \"bat\": ");
            push_hundredths(&mut body, it.vol);
            body.append(" }");
            proof {
                let s = data@.take(count + 1);
                assert(s.drop_last() =~= data@.take(count as int));
                assert(s.last() == data@[count as int]);
                if count == 0 {
                    assert(json_items(data@.take(0)) =~= Seq::<char>::empty());
                }
            }
            count += 1;
            assert(body@ =~= "[ "@ + json_items(data@.take(count as int)));
        }
        body.append("]");
        assert(data@.take(n as int) =~= data@);
        self.data.body = body;
        self.data.txreq = true;
        count
    }

    /// Called by the sending task: when a request is pending, returns it and
    /// clears the pending mark; otherwise returns `None`.
    pub fn take_request(&mut self) -> (req: Option<String>)
        ensures
            (final(self)@, match req { Some(r) => Some(r@), None => None }) == after_take_request(
                old(self)@,
            ),
    {
        if !self.data.txreq {
            return None;
        }
        let mut request = String::new();
        request.append("POST / HTTP/1.1\r\nHost: ");
        request.append(self.server.as_str());
        request.append("\r\n");
        request.append("Content-Type: application/json\r\nAcept: */*\r\nUser-Agent: temp-logger");
        request.append("\r\nContent-Length:");
        let len = self.data.body.as_str().len();
        push_decimal(&mut request, len as u64);
        request.append("\r\n\r\n");
        request.append(self.data.body.as_str());
        request.append("\r\n");
        self.data.txreq = false;
        assert(request@ =~= request_text(self.server@, self.data.body@));
        Some(request)
    }
}


/// The server never changes: handing samples over and taking requests keep
/// the server given to `Transfer::new`, so every request names it as its host.
pub proof fn server_is_kept(v: TransferView, data: Seq<TempLog>)
    ensures
        after_set_transfer(v, data).0.server == v.server,
        after_take_request(v).0.server == v.server,
        after_take_request(v).0.body == v.body,
        after_take_request(v).1 matches Some(r) ==> r == request_text(v.server, v.body),
{
}

/// Any run of hand-overs and polls keeps the server, and each request that a
/// poll yields is addressed to it: two polls separated by a hand-over post to
/// the same host.
pub proof fn requests_keep_their_host(v: TransferView, d1: Seq<TempLog>, d2: Seq<TempLog>)
    ensures
        ({
            let s1 = after_take_request(after_set_transfer(v, d1).0).0;
            let s2 = after_take_request(after_set_transfer(s1, d2).0);
            &&& s1.server == v.server
            &&& s2.0.server == v.server
            &&& (s2.1 matches Some(r) ==> r == request_text(v.server, after_set_transfer(s1, d2).0.body))
        }),
{
}

/// A request that has not been sent yet is never overwritten: handing over
/// more samples meanwhile accepts none of them and changes nothing.
pub proof fn pending_request_is_kept(v: TransferView, data: Seq<TempLog>)
    requires
        v.txreq,
    ensures
        after_set_transfer(v, data) == (v, 0nat),
{
}

/// A hand-over is all or nothing: when it accepts samples it accepts every
/// one of them, and the pending body describes exactly those samples.
pub proof fn accepted_hand_over_is_complete(v: TransferView, data: Seq<TempLog>)
    requires
        after_set_transfer(v, data).1 > 0,
    ensures
        after_set_transfer(v, data).1 == data.len(),
        after_set_transfer(v, data).0.body == json_body(data),
        after_set_transfer(v, data).0.txreq,
        after_set_transfer(v, data).0.server == v.server,
{
}

/// An accepted body is sent exactly once: the next poll yields the request
/// that carries it, and a poll after that yields nothing; then a new
/// non-empty hand-over is accepted again.
pub proof fn accepted_body_is_sent_once(v: TransferView, data: Seq<TempLog>, next: Seq<TempLog>)
    requires
        after_set_transfer(v, data).1 > 0,
        next.len() > 0,
    ensures
        ({
            let s1 = after_set_transfer(v, data).0;
            let s2 = after_take_request(s1).0;
            &&& after_take_request(s1).1 == Some(request_text(v.server, json_body(data)))
            &&& after_take_request(s2).1 is None
            &&& after_set_transfer(s2, next).1 == next.len()
        }),
{
}

} // verus!
