//! The element handle codec.
//!
//! Instruction calls share no in-memory object graph: a looked-up element can
//! only travel to the next call as a string. The codec serialises a live,
//! session-bound element reference into an opaque wire string and binds such
//! a string back to a live reference under the current session, telling a
//! string that is not structured data apart from one whose structure is not
//! an element reference. It keeps no state: every decode re-resolves from
//! scratch.

use std::sync::Arc;

use thirtyfour::WebElement;
use thirtyfour::session::handle::SessionHandle;
use vstd::prelude::*;

verus! {

#[verifier::external_type_specification]
#[verifier::external_body]
pub struct ExWebElement(WebElement);

#[verifier::external_type_specification]
#[verifier::external_body]
pub struct ExSessionHandle(SessionHandle);

/// The backend-assigned id of a live element reference: what thirtyfour's
/// `element_id` accessor yields, printed verbatim.
pub uninterp spec fn elem_id_of(elem: &WebElement) -> Seq<char>;

/// The wire string thirtyfour's element serialisation produces for an
/// element whose backend id is `id`.
pub uninterp spec fn wire_of(id: Seq<char>) -> Seq<char>;

/// Whether serde_json parses `s` as structured data.
pub uninterp spec fn wire_parses(s: Seq<char>) -> bool;

/// The backend id that thirtyfour's element deserialisation binds when the
/// structured data in `s` is a well-formed element reference; nothing
/// otherwise.
pub uninterp spec fn wire_elem_id(s: Seq<char>) -> Option<Seq<char>>;

/// Why a transported element reference could not be decoded.
#[derive(Debug)]
pub enum ElemDecodeError {
    /// The string was not valid structured data; the message names the
    /// parse error.
    Parse(String),
    /// The structure was valid but did not bind as an element reference; the
    /// message names the binding error.
    Bind(String),
}

impl ElemDecodeError {
    /// The caller-visible message.
    pub fn message(self) -> (m: String)
        ensures
            self matches ElemDecodeError::Parse(s) ==> m == s,
            self matches ElemDecodeError::Bind(s) ==> m == s,
    {
        match self {
            ElemDecodeError::Parse(s) => s,
            ElemDecodeError::Bind(s) => s,
        }
    }
}

/// A transportable element reference: the wire string and the backend id it
/// encodes.
pub struct ElemWire {
    /// The backend-assigned element id.
    pub id: String,
    /// The serialised wire form carrying that id.
    pub wire: String,
}

/// Relies on thirtyfour's WebElement::to_json and on the string
/// serialisation of a serde_json value: the wire form of an element is a
/// function of its backend id alone, it is well-formed structured data, and
/// deserialising it binds the same id back. `to_json` serialises nothing but
/// the element's id, a single string field, so it cannot fail.
#[verifier::external_body]
fn encode_elem_raw(elem: &WebElement) -> (r: (String, String))
    ensures
        r.0@ == elem_id_of(elem),
        r.1@ == wire_of(r.0@),
        wire_parses(r.1@),
        wire_elem_id(r.1@) == Some(r.0@),
{
    let id = elem.element_id().to_string();
    let wire = elem
        .to_json()
        .expect("serialising an element reference cannot fail")
        .to_string();
    (id, wire)
}

/// Relies on serde_json::from_str and thirtyfour's WebElement::from_json:
/// whether parsing and binding succeed, and which id is bound, depend on the
/// string alone; the live reference is bound to the given session handle and
/// carries the bound id as its own.
#[verifier::external_body]
fn decode_elem_raw(handle: &Arc<SessionHandle>, s: &str) -> (r: Result<
    (WebElement, String),
    ElemDecodeError,
>)
    ensures
        r is Ok <==> wire_elem_id(s@) is Some,
        r matches Ok(p) ==> wire_elem_id(s@) == Some(p.1@) && p.1@ == elem_id_of(&p.0)
            && wire_parses(s@),
        r matches Err(e) ==> ((e is Parse <==> !wire_parses(s@)) && (e is Bind <==> wire_parses(
            s@,
        ))),
{
    match serde_json::from_str::<serde_json::Value>(s) {
        Err(e) => Err(ElemDecodeError::Parse(format!("Invalid element parameter: {e}"))),
        Ok(v) => match WebElement::from_json(v, handle.clone()) {
            Err(e) => Err(ElemDecodeError::Bind(format!("Invalid element: {e}"))),
            Ok(elem) => {
                let id = elem.element_id().to_string();
                Ok((elem, id))
            },
        },
    }
}

/// Serialise a live element for transport, keeping the backend id beside the
/// wire string. Serialisation always succeeds: the id is the input element's
/// own, the wire form is a function of that id alone, is well-formed
/// structured data, and binds back to that very id.
pub fn encode_elem(elem: &WebElement) -> (w: ElemWire)
    ensures
        w.id@ == elem_id_of(elem),
        w.wire@ == wire_of(w.id@),
        wire_parses(w.wire@),
        wire_elem_id(w.wire@) == Some(w.id@),
{
    let (id, wire) = encode_elem_raw(elem);
    ElemWire { id, wire }
}

/// Serialise a live element to its opaque wire string. This always succeeds;
/// the string is the wire form of the input element's own backend id, and it
/// is well-formed structured data that binds back to exactly that id.
pub fn serialise_elem(elem: &WebElement) -> (r: Result<String, String>)
    ensures
        r is Ok,
        r matches Ok(s) ==> s@ == wire_of(elem_id_of(elem)) && wire_parses(s@) && wire_elem_id(
            s@,
        ) == Some(elem_id_of(elem)),
{
    let w = encode_elem(elem);
    Ok(w.wire)
}

/// Recover a live element, bound to the given session, from a transported
/// string. The string is untrusted: one that is not structured data fails as
/// a parse error, one whose structure does not bind as an element reference
/// fails as a bind error, and nothing else fails. A recovered element
/// carries exactly the backend id the string encodes.
pub fn deserialise_elem(handle: &Arc<SessionHandle>, s: &str) -> (r: Result<
    WebElement,
    ElemDecodeError,
>)
    ensures
        r is Ok <==> wire_elem_id(s@) is Some,
        r is Ok ==> wire_parses(s@),
        r matches Ok(e) ==> wire_elem_id(s@) == Some(elem_id_of(&e)),
        r matches Err(e) ==> ((e is Parse <==> !wire_parses(s@)) && (e is Bind <==> wire_parses(
            s@,
        ))),
{
    match decode_elem_raw(handle, s) {
        Ok((elem, _)) => Ok(elem),
        Err(e) => Err(e),
    }
}

/// Round trip: serialising an element and decoding the result under the
/// issuing session's handle always succeeds, and both the id carried on the
/// wire and the id of the recovered reference are the input element's own.
pub fn round_trip_ids(elem: &WebElement, handle: &Arc<SessionHandle>) -> (r: Result<
    (String, String),
    String,
>)
    ensures
        r is Ok,
        r matches Ok(ids) ==> ids.0@ == elem_id_of(elem) && ids.1@ == elem_id_of(elem),
{
    let w = encode_elem(elem);
    match decode_elem_raw(handle, w.wire.as_str()) {
        Ok((_, id)) => Ok((w.id, id)),
        Err(e) => {
            proof {
                assert(false);
            }
            Err(e.message())
        },
    }
}

} // verus!
