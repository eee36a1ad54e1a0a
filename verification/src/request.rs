//! The outbound request: its body as it goes over the wire, and the request
//! as a whole.

use vstd::prelude::*;
use vstd::string::*;
use crate::secret::Maskable;
use crate::signature::Method;

verus! {

/// The body of a request, held as what is transmitted. A digest is computed
/// over [`RequestContent::wire_bytes`], never over an intermediate form.
#[derive(Clone, Debug, PartialEq, Eq)]
pub enum RequestContent {
    /// A JSON document, as serialised text.
    Json(String),
    /// A form: pairs of key and value, both already percent-encoded.
    FormUrlEncoded(Vec<(String, String)>),
    /// Bytes sent as they are.
    RawBytes(Vec<u8>),
}

/// The wire text of a form: `key=value` for each pair, joined by `&`.
pub open spec fn form_text(pairs: Seq<(String, String)>) -> Seq<char>
    decreases pairs.len(),
{
    if pairs.len() == 0 {
        Seq::empty()
    } else if pairs.len() == 1 {
        pairs[0].0@ + "="@ + pairs[0].1@
    } else {
        form_text(pairs.drop_last()) + "&"@ + pairs.last().0@ + "="@ + pairs.last().1@
    }
}

impl RequestContent {
    /// The bytes that are transmitted for this body.
    pub open spec fn wire_bytes(&self) -> Seq<u8> {
        match self {
            RequestContent::Json(text) => vstd::utf8::encode_utf8(text@),
            RequestContent::FormUrlEncoded(pairs) => vstd::utf8::encode_utf8(form_text(pairs@)),
            RequestContent::RawBytes(bytes) => bytes@,
        }
    }

    /// Returns the bytes that are transmitted for this body.
    pub fn to_wire_bytes(&self) -> (result: Vec<u8>)
        ensures
            result@ == self.wire_bytes(),
    {
        match self {
            RequestContent::Json(text) => text.as_str().as_bytes_vec(),
            RequestContent::FormUrlEncoded(pairs) => {
                let text = form_to_text(pairs);
                text.as_str().as_bytes_vec()
            },
            RequestContent::RawBytes(bytes) => bytes.clone(),
        }
    }
}

/// Writes a form as it goes over the wire.
pub fn form_to_text(pairs: &Vec<(String, String)>) -> (result: String)
    ensures
        result@ == form_text(pairs@),
{
    let mut text = String::new();
    let mut index: usize = 0;
    while index < pairs.len()
        invariant
            index <= pairs.len(),
            text@ == form_text(pairs@.take(index as int)),
        decreases pairs.len() - index,
    {
        let ghost before = text@;
        if index > 0 {
            text.append("&");
        }
        text.append(pairs[index].0.as_str());
        text.append("=");
        text.append(pairs[index].1.as_str());
        proof {
            let taken = pairs@.take(index + 1);
            assert(taken.drop_last() =~= pairs@.take(index as int));
            assert(taken.last() == pairs@[index as int]);
            if index == 0 {
                assert(before =~= Seq::<char>::empty());
                assert(text@ =~= pairs@[0].0@ + "="@ + pairs@[0].1@);
                assert(taken[0] == pairs@[0]);
            } else {
                assert(text@ =~= before + "&"@ + pairs@[index as int].0@ + "="@
                    + pairs@[index as int].1@);
            }
        }
        index += 1;
    }
    proof {
        assert(pairs@.take(pairs.len() as int) =~= pairs@);
    }
    text
}

/// One header: its name and its value.
pub type Header = (String, Maskable);

/// A header as plain values: name, value, and whether the value is secret.
pub open spec fn header_view(header: Header) -> (Seq<char>, Seq<char>, bool) {
    (header.0@, header.1@, header.1.spec_is_masked())
}

/// A header list as plain values.
pub open spec fn headers_view(headers: Seq<Header>) -> Seq<(Seq<char>, Seq<char>, bool)> {
    headers.map_values(|header: Header| header_view(header))
}

/// An outbound request, ready for the transport.
#[derive(Clone, PartialEq, Eq)]
pub struct Request {
    pub method: Method,
    pub url: String,
    pub headers: Vec<Header>,
    pub body: Option<RequestContent>,
}

} // verus!
