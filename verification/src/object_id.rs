//! BSON ObjectIds as twelve plain bytes, with their hexadecimal text form.
//!
//! Parsing, printing and generation are done by the `bson` crate; the
//! library states what the text form of an id is and proves that the text
//! it prints parses back to the same id.
use vstd::prelude::*;

verus! {

/// The value of a hexadecimal digit character, upper or lower case, or -1
/// for any other character.
pub open spec fn hex_value(c: char) -> int {
    let n: int = c as int;
    if 48 <= n <= 57 {
        n - 48
    } else if 97 <= n <= 102 {
        n - 87
    } else if 65 <= n <= 70 {
        n - 55
    } else {
        -1
    }
}

/// The lower-case hexadecimal digit for a value below sixteen.
pub open spec fn hex_digit(n: int) -> char
    recommends
        0 <= n < 16,
{
    if n < 10 {
        (n + 48) as char
    } else {
        (n + 87) as char
    }
}

/// Whether a character is a lower-case hexadecimal digit: `0` to `9` or
/// `a` to `f`.
pub open spec fn is_lower_hex_char(c: char) -> bool {
    (48 <= c as int <= 57) || (97 <= c as int <= 102)
}

/// Lower-case hexadecimal text of a byte sequence: two digits per byte,
/// the high nibble first.
pub open spec fn hex_encode(bytes: Seq<u8>) -> Seq<char> {
    Seq::new(
        2 * bytes.len(),
        |i: int|
            if i % 2 == 0 {
                hex_digit(bytes[i / 2] as int / 16)
            } else {
                hex_digit(bytes[i / 2] as int % 16)
            },
    )
}

/// Whether `s` is the text of an ObjectId: exactly twenty-four hexadecimal
/// digits, in either case.
pub open spec fn is_object_id_text(s: Seq<char>) -> bool {
    &&& s.len() == 24
    &&& forall|i: int| 0 <= i < s.len() ==> hex_value(#[trigger] s[i]) >= 0
}

/// The bytes that hexadecimal text denotes, two digits per byte.
pub open spec fn hex_decode(s: Seq<char>) -> Seq<u8> {
    Seq::new(
        s.len() / 2,
        |i: int| (hex_value(s[2 * i]) * 16 + hex_value(s[2 * i + 1])) as u8,
    )
}

/// The text `ObjectId('<hex>')` by which an id presents itself.
pub open spec fn object_id_repr(bytes: Seq<u8>) -> Seq<char> {
    seq!['O', 'b', 'j', 'e', 'c', 't', 'I', 'd', '(', '\''] + hex_encode(bytes) + seq!['\'', ')']
}

/// The message of the error that `bson::oid::ObjectId::parse_str` returns
/// for a text (through the error's `Display`). It depends on the text alone.
pub uninterp spec fn object_id_error_text(text: Seq<char>) -> Seq<char>;

/// Calls `bson::oid::ObjectId::parse_str` and hands back the id's bytes, or
/// the message of its error. The crate decodes the text with
/// `hex::decode`, which accepts an even number of hexadecimal digits of
/// either case, and then accepts the result when it is twelve bytes long:
/// so the call succeeds exactly on twenty-four hexadecimal digits, with the
/// bytes they denote. The message is the error's `Display` text, which
/// depends on the text alone; what it says is not spelled out here.
#[verifier::external_body]
fn parse_object_id_text(text: &str) -> (res: Result<[u8; 12], String>)
    ensures
        res is Ok <==> is_object_id_text(text@),
        res matches Ok(bytes) ==> bytes@ == hex_decode(text@),
        res matches Err(message) ==> message@ == object_id_error_text(text@),
{
    match bson::oid::ObjectId::parse_str(text) {
        Ok(id) => Ok(id.bytes()),
        Err(error) => Err(error.to_string()),
    }
}

/// Calls `bson::oid::ObjectId::to_hex` on the id with these bytes, which
/// is `hex::encode`: two lower-case digits per byte, high nibble first.
#[verifier::external_body]
fn object_id_to_hex(bytes: [u8; 12]) -> (res: String)
    ensures
        res@ == hex_encode(bytes@),
{
    bson::oid::ObjectId::from_bytes(bytes).to_hex()
}

/// Calls `bson::oid::ObjectId::new`, which reads the clock, a per-process
/// random value and a process-wide counter. Nothing is stated of the bytes.
#[verifier::external_body]
fn generate_object_id_bytes() -> [u8; 12] {
    bson::oid::ObjectId::new().bytes()
}

/// Text that is not an ObjectId, with the message that `bson` gives for it.
pub struct InvalidObjectId {
    pub message: String,
}

/// A BSON ObjectId: twelve bytes.
#[derive(Clone, Copy)]
pub struct ObjectId {
    pub bytes: [u8; 12],
}

impl View for ObjectId {
    type V = Seq<u8>;

    open spec fn view(&self) -> Seq<u8> {
        self.bytes@
    }
}

impl ObjectId {
    /// The id with the given bytes.
    pub fn from_bytes(bytes: [u8; 12]) -> (id: ObjectId)
        ensures
            id@ == bytes@,
    {
        ObjectId { bytes }
    }

    /// A freshly generated id (from the time, the process and a counter).
    pub fn generate() -> (id: ObjectId)
        ensures
            id@.len() == 12,
    {
        ObjectId { bytes: generate_object_id_bytes() }
    }

    /// Parses the twenty-four hexadecimal digits of an id, in either case;
    /// any other text is refused with the message that `bson` gives for it.
    pub fn parse(text: &str) -> (res: Result<ObjectId, InvalidObjectId>)
        ensures
            res is Ok <==> is_object_id_text(text@),
            res matches Ok(id) ==> id@ == hex_decode(text@),
            res matches Err(error) ==> error.message@ == object_id_error_text(text@),
    {
        ObjectId::from_parsed(parse_object_id_text(text))
    }

    /// The id, or the refusal, for what parsing a text gave: its bytes, or
    /// the message of its error.
    pub fn from_parsed(parsed: Result<[u8; 12], String>) -> (res: Result<ObjectId, InvalidObjectId>)
        ensures
            match parsed {
                Ok(bytes) => res matches Ok(id) && id@ == bytes@,
                Err(message) => res matches Err(error) && error.message@ == message@,
            },
    {
        match parsed {
            Ok(bytes) => Ok(ObjectId { bytes }),
            Err(message) => Err(InvalidObjectId { message }),
        }
    }

    /// The id that the text names, or a fresh one when there is no text.
    pub fn new(value: Option<&str>) -> (res: Result<ObjectId, InvalidObjectId>)
        ensures
            match value {
                None => res is Ok,
                Some(text) => {
                    &&& (res is Ok <==> is_object_id_text(text@))
                    &&& (res matches Ok(id) ==> id@ == hex_decode(text@))
                    &&& (res matches Err(error) ==> error.message@ == object_id_error_text(
                        text@,
                    ))
                },
            },
    {
        match value {
            Some(text) => ObjectId::parse(text),
            None => Ok(ObjectId::generate()),
        }
    }

    /// The id's twelve bytes.
    pub fn bytes(&self) -> (bytes: [u8; 12])
        ensures
            bytes@ == self@,
    {
        self.bytes
    }

    /// Lower-case hexadecimal text of the id. It is ObjectId text and
    /// parses back to this same id.
    pub fn hex(&self) -> (text: String)
        ensures
            text@ == hex_encode(self@),
            is_object_id_text(text@),
            hex_decode(text@) == self@,
            forall|i: int| 0 <= i < text@.len() ==> is_lower_hex_char(#[trigger] text@[i]),
    {
        proof {
            lemma_hex_parse_round_trip(*self);
            lemma_hex_text_lower_case(self@);
        }
        object_id_to_hex(self.bytes)
    }

    /// The text `ObjectId('<hex>')`.
    pub fn repr(&self) -> (text: String)
        ensures
            text@ == object_id_repr(self@),
    {
        let mut text = String::from_str("ObjectId('");
        let hex = self.hex();
        text.append(hex.as_str());
        text.append("')");
        proof {
            reveal_strlit("ObjectId('");
            reveal_strlit("')");
        }
        text
    }

    /// Whether the two ids have the same bytes.
    pub fn same_as(&self, other: &ObjectId) -> (equal: bool)
        ensures
            equal == (self@ == other@),
    {
        let mut i: usize = 0;
        while i < 12
            invariant
                i <= 12,
                self.bytes@.len() == 12,
                other.bytes@.len() == 12,
                forall|j: int| 0 <= j < i ==> self.bytes@[j] == other.bytes@[j],
            decreases 12 - i,
        {
            if self.bytes[i] != other.bytes[i] {
                return false;
            }
            i = i + 1;
        }
        assert(self.bytes@ =~= other.bytes@);
        true
    }
}

/// Decoding the value of an encoded digit gives the digit back.
proof fn lemma_hex_digit_value(n: int)
    requires
        0 <= n < 16,
    ensures
        hex_value(hex_digit(n)) == n,
        hex_value(hex_digit(n)) >= 0,
{
}

/// The text that `hex` gives for an id is ObjectId text, and parsing it
/// gives back the same id: `ObjectId::parse(&id.hex())` is `Ok` with the
/// bytes of `id`.
pub proof fn lemma_hex_parse_round_trip(id: ObjectId)
    ensures
        is_object_id_text(hex_encode(id@)),
        hex_decode(hex_encode(id@)) == id@,
{
    let b = id@;
    let t = hex_encode(b);
    assert(b.len() == 12);
    assert forall|i: int| 0 <= i < t.len() implies hex_value(#[trigger] t[i]) >= 0 by {
        let q: int = i / 2;
        assert(0 <= q < 12);
        lemma_hex_digit_value(b[q] as int / 16);
        lemma_hex_digit_value(b[q] as int % 16);
    }
    let d = hex_decode(t);
    assert forall|i: int| 0 <= i < 12 implies #[trigger] d[i] == b[i] by {
        assert((2 * i) / 2 == i);
        assert((2 * i + 1) / 2 == i);
        assert((2 * i) % 2 == 0);
        assert((2 * i + 1) % 2 == 1);
        lemma_hex_digit_value(b[i] as int / 16);
        lemma_hex_digit_value(b[i] as int % 16);
        assert(t[2 * i] == hex_digit(b[i] as int / 16));
        assert(t[2 * i + 1] == hex_digit(b[i] as int % 16));
        assert((b[i] as int / 16) * 16 + b[i] as int % 16 == b[i] as int);
    }
    assert(d =~= b);
}

/// Two ids with the same hexadecimal text are the same id.
pub proof fn lemma_hex_injective(a: ObjectId, b: ObjectId)
    requires
        hex_encode(a@) == hex_encode(b@),
    ensures
        a@ == b@,
{
    lemma_hex_parse_round_trip(a);
    lemma_hex_parse_round_trip(b);
}

/// Hexadecimal text is two characters per byte, every character a
/// lower-case digit (`0`-`9`, `a`-`f`), the first of each pair the byte's
/// high nibble and the second its low nibble.
pub proof fn lemma_hex_text_lower_case(bytes: Seq<u8>)
    ensures
        hex_encode(bytes).len() == 2 * bytes.len(),
        forall|i: int|
            0 <= i < hex_encode(bytes).len() ==> is_lower_hex_char(#[trigger] hex_encode(bytes)[i]),
        forall|k: int|
            0 <= k < bytes.len() ==> {
                &&& hex_value(#[trigger] hex_encode(bytes)[2 * k]) == bytes[k] as int / 16
                &&& hex_value(hex_encode(bytes)[2 * k + 1]) == bytes[k] as int % 16
            },
{
    let t = hex_encode(bytes);
    assert forall|i: int| 0 <= i < t.len() implies is_lower_hex_char(#[trigger] t[i]) by {
        let q: int = i / 2;
        assert(0 <= q < bytes.len());
        lemma_hex_digit_lower(bytes[q] as int / 16);
        lemma_hex_digit_lower(bytes[q] as int % 16);
    }
    assert forall|k: int| 0 <= k < bytes.len() implies {
        &&& hex_value(#[trigger] t[2 * k]) == bytes[k] as int / 16
        &&& hex_value(t[2 * k + 1]) == bytes[k] as int % 16
    } by {
        assert((2 * k) / 2 == k);
        assert((2 * k + 1) / 2 == k);
        assert((2 * k) % 2 == 0);
        assert((2 * k + 1) % 2 == 1);
        lemma_hex_digit_value(bytes[k] as int / 16);
        lemma_hex_digit_value(bytes[k] as int % 16);
    }
}

/// The digit for a value below sixteen is a lower-case hexadecimal digit.
proof fn lemma_hex_digit_lower(n: int)
    requires
        0 <= n < 16,
    ensures
        is_lower_hex_char(hex_digit(n)),
{
}

/// An id presents itself as `ObjectId('`, its lower-case hex text, `')`.
pub proof fn lemma_repr_shape(bytes: Seq<u8>)
    ensures
        object_id_repr(bytes).len() == 2 * bytes.len() + 12,
        object_id_repr(bytes).take(10) == "ObjectId('"@,
        object_id_repr(bytes).subrange(10, 10 + 2 * bytes.len() as int) == hex_encode(bytes),
        object_id_repr(bytes).skip(10 + 2 * bytes.len() as int) == "')"@,
{
    reveal_strlit("ObjectId('");
    reveal_strlit("')");
    let r = object_id_repr(bytes);
    let n: int = 2 * bytes.len() as int;
    assert(r.take(10) =~= "ObjectId('"@);
    assert(r.subrange(10, 10 + n) =~= hex_encode(bytes));
    assert(r.skip(10 + n) =~= "')"@);
}

} // verus!
