//! Persistence codec. The persisted blob is one leading tag byte followed
//! by the UTF-8 encoding of the label; the numeric value and the host
//! toggles are deliberately not persisted and restart at their defaults.
//! A missing blob, an empty one, one without the tag, or one whose payload
//! is not valid UTF-8 falls back to the default state silently.
use crate::state::{
    default_host_toggles, is_default_app, spec_default_toggles, TemplateApp, VALUE_DEFAULT_MILLI,
};
use vstd::prelude::*;
use vstd::string::StrSliceExecFns;
use vstd::utf8::{
    decode_utf8, decode_utf8_encode_utf8, encode_utf8, encode_utf8_decode_utf8,
    encode_utf8_valid_utf8, valid_utf8,
};

verus! {

/// The tag byte that starts every persisted blob.
pub const STORAGE_TAG: u8 = 1;

/// The persisted form of a state whose label is `label`.
pub open spec fn spec_encode_label(label: Seq<char>) -> Seq<u8> {
    seq![STORAGE_TAG] + encode_utf8(label)
}

/// Whether a blob is well-formed: it starts with the tag byte and its
/// payload is valid UTF-8.
pub open spec fn spec_blob_ok(bytes: Seq<u8>) -> bool {
    &&& bytes.len() >= 1
    &&& bytes[0] == STORAGE_TAG
    &&& valid_utf8(bytes.skip(1))
}

/// The state a well-formed persisted blob decodes to: the decoded label,
/// and defaults for everything that is not persisted.
pub open spec fn spec_decoded_app(app: TemplateApp, bytes: Seq<u8>) -> bool {
    &&& app.label@ == decode_utf8(bytes.skip(1))
    &&& app.value_milli == VALUE_DEFAULT_MILLI
    &&& app.host_toggles@ == spec_default_toggles()
}

/// Relies on `String::from_utf8`: it returns `Ok` exactly when the input
/// is valid UTF-8, and the returned string then holds exactly the input
/// bytes.
#[verifier::external_body]
fn string_from_utf8(bytes: Vec<u8>) -> (r: Option<String>)
    ensures
        r is Some <==> valid_utf8(bytes@),
        r matches Some(s) ==> encode_utf8(s@) == bytes@,
{
    String::from_utf8(bytes).ok()
}

impl TemplateApp {
    /// Serializes the state for persistence: the tag byte, then the
    /// label's UTF-8 bytes.
    pub fn encode(&self) -> (r: Vec<u8>)
        ensures
            r@ == spec_encode_label(self.label@),
    {
        let bytes = self.label.as_str().as_bytes_vec();
        let mut v: Vec<u8> = Vec::new();
        v.push(STORAGE_TAG);
        proof {
            assert(v@ =~= seq![STORAGE_TAG] + bytes@.subrange(0, 0));
        }
        let mut i: usize = 0;
        while i < bytes.len()
            invariant
                i <= bytes@.len(),
                bytes@ == encode_utf8(self.label@),
                v@ == seq![STORAGE_TAG] + bytes@.subrange(0, i as int),
            decreases bytes@.len() - i,
        {
            let b = bytes[i];
            v.push(b);
            i = i + 1;
            proof {
                assert(v@ =~= seq![STORAGE_TAG] + bytes@.subrange(0, i as int));
            }
        }
        proof {
            assert(bytes@.subrange(0, bytes@.len() as int) =~= bytes@);
            assert(v@ =~= spec_encode_label(self.label@));
        }
        v
    }

    /// Restores a state from a persisted blob, as loaded once at startup.
    /// A missing or malformed blob (empty, wrong tag, or a payload that is
    /// not valid UTF-8) yields the default state; a well-formed blob
    /// yields its decoded label with defaults for the rest.
    pub fn new(blob: Option<Vec<u8>>) -> (r: Self)
        ensures
            match blob {
                Some(b) => if spec_blob_ok(b@) {
                    spec_decoded_app(r, b@)
                } else {
                    is_default_app(r)
                },
                None => is_default_app(r),
            },
    {
        match blob {
            Some(b) => {
                if b.len() == 0 {
                    return TemplateApp::default();
                }
                if b[0] != STORAGE_TAG {
                    return TemplateApp::default();
                }
                let mut payload: Vec<u8> = Vec::new();
                proof {
                    assert(payload@ =~= b@.subrange(1, 1));
                }
                let mut i: usize = 1;
                while i < b.len()
                    invariant
                        1 <= i <= b@.len(),
                        payload@ == b@.subrange(1, i as int),
                    decreases b@.len() - i,
                {
                    let x = b[i];
                    payload.push(x);
                    i = i + 1;
                    proof {
                        assert(payload@ =~= b@.subrange(1, i as int));
                    }
                }
                proof {
                    assert(payload@ =~= b@.skip(1));
                }
                match string_from_utf8(payload) {
                    Some(label) => {
                        proof {
                            encode_utf8_decode_utf8(label@);
                        }
                        TemplateApp {
                            label,
                            value_milli: VALUE_DEFAULT_MILLI,
                            host_toggles: default_host_toggles(),
                        }
                    },
                    None => TemplateApp::default(),
                }
            },
            None => TemplateApp::default(),
        }
    }
}

/// The blob that encodes `label` is always well-formed, and decoding it
/// yields `label` again.
pub proof fn lemma_decode_encode(label: Seq<char>)
    ensures
        spec_blob_ok(spec_encode_label(label)),
        decode_utf8(spec_encode_label(label).skip(1)) == label,
{
    encode_utf8_valid_utf8(label);
    encode_utf8_decode_utf8(label);
    assert(spec_encode_label(label).skip(1) =~= encode_utf8(label));
}

/// Re-serializing a state freshly decoded from a well-formed blob
/// reproduces the original byte sequence exactly.
pub proof fn lemma_encode_decode(app: TemplateApp, bytes: Seq<u8>)
    requires
        spec_blob_ok(bytes),
        spec_decoded_app(app, bytes),
    ensures
        spec_encode_label(app.label@) == bytes,
{
    decode_utf8_encode_utf8(bytes.skip(1));
    assert(seq![STORAGE_TAG] + bytes.skip(1) =~= bytes);
}

} // verus!
