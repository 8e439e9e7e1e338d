//! Recall bundle identifiers: canonical lowercase hyphenated UUID v4 text.
use vstd::prelude::*;
use vstd::string::*;

verus! {

/// Is `b` one of `0-9a-f`?
pub open spec fn is_lower_hex_byte(b: u8) -> bool {
    (48 <= b <= 57) || (97 <= b <= 102)
}

/// Canonical lowercase hyphenated UUID v4: `xxxxxxxx-xxxx-4xxx-Yxxx-xxxxxxxxxxxx`
/// with lowercase hexadecimal digits and `Y` one of `8`, `9`, `a`, `b`.
pub open spec fn is_canonical_uuid_v4(b: Seq<u8>) -> bool {
    &&& b.len() == 36
    &&& forall|i: int| 0 <= i < 36 ==> (
        if i == 8 || i == 13 || i == 18 || i == 23 {
            b[i] == 45u8
        } else {
            is_lower_hex_byte(#[trigger] b[i])
        })
    &&& b[14] == 52u8
    &&& (b[19] == 56u8 || b[19] == 57u8 || b[19] == 97u8 || b[19] == 98u8)
}

/// The identifier that ties the recall pages, feedback and observation events of one task together.
#[derive(Debug)]
pub struct RecallBundleId {
    text: String,
}

impl View for RecallBundleId {
    type V = Seq<char>;

    closed spec fn view(&self) -> Seq<char> {
        self.text@
    }
}

impl Clone for RecallBundleId {
    /// The same identifier.
    fn clone(&self) -> (r: Self)
        ensures
            r@ == self@,
            r.wf() == self.wf(),
    {
        RecallBundleId { text: self.text.clone() }
    }
}

impl RecallBundleId {
    /// Every bundle id holds canonical UUID v4 text.
    pub closed spec fn wf(&self) -> bool {
        is_canonical_uuid_v4(vstd::utf8::encode_utf8(self.text@))
    }

    /// Accepts exactly canonical lowercase hyphenated UUID v4 text.
    pub fn parse(value: &str) -> (r: Result<RecallBundleId, &'static str>)
        ensures
            match r {
                Ok(id) => is_canonical_uuid_v4(value.spec_bytes()) && id@ == value@ && id.wf(),
                Err(e) => !is_canonical_uuid_v4(value.spec_bytes())
                    && e@ == "recall bundle id must be a lowercase hyphenated UUID v4"@,
            },
    {
        let bytes = value.as_bytes();
        if bytes.len() != 36 {
            return Err("recall bundle id must be a lowercase hyphenated UUID v4");
        }
        let mut i: usize = 0;
        while i < 36
            invariant
                bytes@ == value.spec_bytes(),
                bytes@.len() == 36,
                i <= 36,
                forall|j: int| 0 <= j < i ==> (
                    if j == 8 || j == 13 || j == 18 || j == 23 {
                        bytes@[j] == 45u8
                    } else {
                        is_lower_hex_byte(#[trigger] bytes@[j])
                    }),
            decreases 36 - i,
        {
            let b = bytes[i];
            let ok = if i == 8 || i == 13 || i == 18 || i == 23 {
                b == 45u8
            } else {
                (48u8 <= b && b <= 57u8) || (97u8 <= b && b <= 102u8)
            };
            if !ok {
                return Err("recall bundle id must be a lowercase hyphenated UUID v4");
            }
            i = i + 1;
        }
        let v = bytes[19];
        if bytes[14] != 52u8 || !(v == 56u8 || v == 57u8 || v == 97u8 || v == 98u8) {
            return Err("recall bundle id must be a lowercase hyphenated UUID v4");
        }
        Ok(RecallBundleId { text: value.to_owned() })
    }

    /// The canonical text.
    pub fn as_str(&self) -> (r: &str)
        ensures
            r@ == self@,
    {
        self.text.as_str()
    }
}

} // verus!
