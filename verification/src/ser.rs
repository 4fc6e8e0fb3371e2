//! The serializer: what each value of the serde data model writes to the
//! output buffer, and the metadata that error messages report.

use bytes::BytesMut;
use vstd::prelude::*;

use crate::buffer::{
    buffer_contents, buffer_len, buffer_put_slice, buffer_put_u16, buffer_put_u32, buffer_put_u64,
    buffer_put_u8, buffer_with_capacity,
};
use crate::encoding::be_bytes;
use crate::error::{opt_chars, refusal_message, SerializerError};

verus! {

/// Bytes written so far, the names (type, variant, field) of the value
/// being written, for error messages, and the names of the containers that
/// enclose it, innermost last, to be restored as each of them ends.
pub struct Serializer {
    output: BytesMut,
    err_type_metadata: String,
    err_variant_metadata: String,
    err_field_metadata: String,
    enclosing: Vec<(String, String, String)>,
}

/// The (type, variant, field) names of a container, as characters.
pub type Names = (Seq<char>, Seq<char>, Seq<char>);

/// What a `Serializer` holds, as plain values.
pub struct SerializerState {
    pub output: Seq<u8>,
    pub type_meta: Seq<char>,
    pub variant_meta: Seq<char>,
    pub field_meta: Seq<char>,
    pub enclosing: Seq<Names>,
}

/// The characters of saved (type, variant, field) names.
pub open spec fn names_chars(n: (String, String, String)) -> Names {
    (n.0@, n.1@, n.2@)
}

impl View for Serializer {
    type V = SerializerState;

    closed spec fn view(&self) -> SerializerState {
        SerializerState {
            output: buffer_contents(self.output),
            type_meta: self.err_type_metadata@,
            variant_meta: self.err_variant_metadata@,
            field_meta: self.err_field_metadata@,
            enclosing: self.enclosing@.map_values(|n: (String, String, String)| names_chars(n)),
        }
    }
}

/// `Type: "t"`, then `, Variant: "v"` and `, Field: "f"` for those that are
/// not empty; nothing at all when no type name is known.
pub open spec fn metadata(t: Seq<char>, v: Seq<char>, f: Seq<char>) -> Option<Seq<char>> {
    if t.len() == 0 {
        None
    } else {
        Some(
            "Type: \""@ + t + "\""@ + (if v.len() == 0 {
                Seq::empty()
            } else {
                ", Variant: \""@ + v + "\""@
            }) + (if f.len() == 0 {
                Seq::empty()
            } else {
                ", Field: \""@ + f + "\""@
            }),
        )
    }
}

impl SerializerState {
    /// The (type, variant, field) names of the value being written.
    pub open spec fn names(self) -> Names {
        (self.type_meta, self.variant_meta, self.field_meta)
    }

    /// The metadata that an error raised in this state reports.
    pub open spec fn info(self) -> Option<Seq<char>> {
        metadata(self.type_meta, self.variant_meta, self.field_meta)
    }

    /// Room in the buffer for `extra` more bytes.
    pub open spec fn has_room(self, extra: nat) -> bool {
        self.output.len() + extra <= isize::MAX
    }
}

/// Values written one after another stand in the output one after another,
/// with nothing between them: two writes in a row are one write of the two
/// encodings, concatenated.
pub proof fn lemma_writes_compose(
    s0: SerializerState,
    s1: SerializerState,
    s2: SerializerState,
    first: Seq<u8>,
    second: Seq<u8>,
)
    requires
        wrote(s0, s1, first),
        wrote(s1, s2, second),
    ensures
        wrote(s0, s2, first + second),
{
    assert(s0.output + first + second =~= s0.output + (first + second));
}

/// Once a nested container ends, errors again name the container that
/// encloses it: whatever its fields did to the names, ending it brings back
/// the names in force before it began, and the enclosing containers.
pub proof fn lemma_end_restores_enclosing(
    before: SerializerState,
    begun: SerializerState,
    finished: SerializerState,
    after: SerializerState,
    t: Seq<char>,
    v: Seq<char>,
)
    requires
        entered(before, begun, t, v),
        finished.enclosing == begun.enclosing,
        ended(finished, after),
    ensures
        after.names() == before.names(),
        after.enclosing == before.enclosing,
        after.output == finished.output,
{
}

/// An error carries metadata exactly when the name of the type being
/// written is known.
pub proof fn lemma_info_iff_type_known(state: SerializerState)
    ensures
        state.info() is Some <==> state.type_meta.len() > 0,
{
}

/// `new` holds `old` with `bytes` appended, and the same metadata.
pub open spec fn wrote(old_state: SerializerState, new_state: SerializerState, bytes: Seq<u8>) -> bool {
    &&& new_state.output == old_state.output + bytes
    &&& new_state.type_meta == old_state.type_meta
    &&& new_state.variant_meta == old_state.variant_meta
    &&& new_state.field_meta == old_state.field_meta
    &&& new_state.enclosing == old_state.enclosing
}

/// The single byte that a boolean is written as.
pub open spec fn bool_byte(v: bool) -> u8 {
    if v { 1 } else { 0 }
}

/// `e` refuses a signed integer, with the metadata of `state`.
pub open spec fn refuses_signed_int(e: SerializerError, state: SerializerState) -> bool {
    e matches SerializerError::UnsupportedSignedInt(m) && opt_chars(m) == state.info()
}

/// `e` refuses a float, with the metadata of `state`.
pub open spec fn refuses_float(e: SerializerError, state: SerializerState) -> bool {
    e matches SerializerError::UnsupportedFloat(m) && opt_chars(m) == state.info()
}

/// `e` refuses text (a `char` or a string), with the metadata of `state`.
pub open spec fn refuses_text(e: SerializerError, state: SerializerState) -> bool {
    e matches SerializerError::UnsupportedText(m) && opt_chars(m) == state.info()
}

/// `e` refuses a map, with the metadata of `state`.
pub open spec fn refuses_map(e: SerializerError, state: SerializerState) -> bool {
    e matches SerializerError::UnsupportedMap(m) && opt_chars(m) == state.info()
}

/// `new` holds the output of `old`, type name `t`, variant name `v` and no
/// field name, and has saved the names of `old` as the innermost enclosing
/// container.
pub open spec fn entered(old_state: SerializerState, new_state: SerializerState, t: Seq<char>, v: Seq<char>) -> bool {
    &&& new_state.output == old_state.output
    &&& new_state.type_meta == t
    &&& new_state.variant_meta == v
    &&& new_state.field_meta == Seq::<char>::empty()
    &&& new_state.enclosing == old_state.enclosing.push(old_state.names())
}

/// `new` is `old` after the innermost container ends: its names are those
/// saved when the container began, and the output is unchanged. With no
/// container open, nothing changes.
pub open spec fn ended(old_state: SerializerState, new_state: SerializerState) -> bool {
    if old_state.enclosing.len() == 0 {
        new_state == old_state
    } else {
        &&& new_state.output == old_state.output
        &&& new_state.names() == old_state.enclosing.last()
        &&& new_state.enclosing == old_state.enclosing.drop_last()
    }
}

impl Serializer {
    /// An empty serializer whose buffer has room for 4096 bytes (the largest
    /// BGP message) before it grows.
    pub fn new() -> (s: Serializer)
        ensures
            s@.output == Seq::<u8>::empty(),
            s@.type_meta == Seq::<char>::empty(),
            s@.variant_meta == Seq::<char>::empty(),
            s@.field_meta == Seq::<char>::empty(),
            s@.enclosing == Seq::<Names>::empty(),
    {
        Serializer {
            output: buffer_with_capacity(4096),
            err_type_metadata: String::new(),
            err_variant_metadata: String::new(),
            err_field_metadata: String::new(),
            enclosing: Vec::new(),
        }
    }

    /// The bytes written so far.
    pub fn output(&self) -> (out: &BytesMut)
        ensures
            buffer_contents(*out) == self@.output,
    {
        &self.output
    }

    /// Ends serialization and hands out the bytes written.
    pub fn into_output(self) -> (out: BytesMut)
        ensures
            buffer_contents(out) == self@.output,
    {
        self.output
    }

    /// The number of bytes written so far.
    pub fn len(&self) -> (n: usize)
        ensures
            n == self@.output.len(),
    {
        buffer_len(&self.output)
    }

    /// The metadata of the value being written, for an error message.
    pub fn format_metadata(&self) -> (m: Option<String>)
        ensures
            opt_chars(m) == self@.info(),
    {
        let t = self.err_type_metadata.as_str();
        let v = self.err_variant_metadata.as_str();
        let f = self.err_field_metadata.as_str();
        if t.is_empty() {
            return None;
        }
        let mut s = String::from_str("Type: \"");
        s.append(t);
        s.append("\"");
        if !v.is_empty() {
            s.append(", Variant: \"");
            s.append(v);
            s.append("\"");
        }
        if !f.is_empty() {
            s.append(", Field: \"");
            s.append(f);
            s.append("\"");
        }
        Some(s)
    }

    /// A boolean: one byte, 1 for `true` and 0 for `false`.
    pub fn serialize_bool(&mut self, v: bool) -> (r: Result<(), SerializerError>)
        requires
            old(self)@.has_room(1),
        ensures
            r is Ok,
            wrote(old(self)@, final(self)@, seq![bool_byte(v)]),
    {
        if v {
            buffer_put_u8(&mut self.output, 1u8);
        } else {
            buffer_put_u8(&mut self.output, 0u8);
        }
        Ok(())
    }

    /// An `i8`: refused, as BGP has no signed integers.
    pub fn serialize_i8(&self, v: i8) -> (r: Result<(), SerializerError>)
        ensures
            r matches Err(e) && refuses_signed_int(e, self@),
    {
        Err(SerializerError::UnsupportedSignedInt(self.format_metadata()))
    }

    /// An `i16`: refused, as BGP has no signed integers.
    pub fn serialize_i16(&self, v: i16) -> (r: Result<(), SerializerError>)
        ensures
            r matches Err(e) && refuses_signed_int(e, self@),
    {
        Err(SerializerError::UnsupportedSignedInt(self.format_metadata()))
    }

    /// An `i32`: refused, as BGP has no signed integers.
    pub fn serialize_i32(&self, v: i32) -> (r: Result<(), SerializerError>)
        ensures
            r matches Err(e) && refuses_signed_int(e, self@),
    {
        Err(SerializerError::UnsupportedSignedInt(self.format_metadata()))
    }

    /// An `i64`: refused, as BGP has no signed integers.
    pub fn serialize_i64(&self, v: i64) -> (r: Result<(), SerializerError>)
        ensures
            r matches Err(e) && refuses_signed_int(e, self@),
    {
        Err(SerializerError::UnsupportedSignedInt(self.format_metadata()))
    }

    /// A `u8`: the byte itself.
    pub fn serialize_u8(&mut self, v: u8) -> (r: Result<(), SerializerError>)
        requires
            old(self)@.has_room(1),
        ensures
            r is Ok,
            wrote(old(self)@, final(self)@, seq![v]),
    {
        buffer_put_u8(&mut self.output, v);
        Ok(())
    }

    /// A `u16`: two bytes, in network byte order.
    pub fn serialize_u16(&mut self, v: u16) -> (r: Result<(), SerializerError>)
        requires
            old(self)@.has_room(2),
        ensures
            r is Ok,
            wrote(old(self)@, final(self)@, be_bytes(v as nat, 2)),
    {
        buffer_put_u16(&mut self.output, v);
        Ok(())
    }

    /// A `u32`: four bytes, in network byte order.
    pub fn serialize_u32(&mut self, v: u32) -> (r: Result<(), SerializerError>)
        requires
            old(self)@.has_room(4),
        ensures
            r is Ok,
            wrote(old(self)@, final(self)@, be_bytes(v as nat, 4)),
    {
        buffer_put_u32(&mut self.output, v);
        Ok(())
    }

    /// A `u64`: eight bytes, in network byte order.
    pub fn serialize_u64(&mut self, v: u64) -> (r: Result<(), SerializerError>)
        requires
            old(self)@.has_room(8),
        ensures
            r is Ok,
            wrote(old(self)@, final(self)@, be_bytes(v as nat, 8)),
    {
        buffer_put_u64(&mut self.output, v);
        Ok(())
    }

    /// An `f32` (whatever its value): refused.
    pub fn serialize_f32(&self) -> (r: Result<(), SerializerError>)
        ensures
            r matches Err(e) && refuses_float(e, self@),
    {
        Err(SerializerError::UnsupportedFloat(self.format_metadata()))
    }

    /// An `f64` (whatever its value): refused.
    pub fn serialize_f64(&self) -> (r: Result<(), SerializerError>)
        ensures
            r matches Err(e) && refuses_float(e, self@),
    {
        Err(SerializerError::UnsupportedFloat(self.format_metadata()))
    }

    /// A `char`: refused, as text has no place in the format.
    pub fn serialize_char(&self, v: char) -> (r: Result<(), SerializerError>)
        ensures
            r matches Err(e) && refuses_text(e, self@),
    {
        Err(SerializerError::UnsupportedText(self.format_metadata()))
    }

    /// A string: refused, as text has no place in the format.
    pub fn serialize_str(&self, v: &str) -> (r: Result<(), SerializerError>)
        ensures
            r matches Err(e) && refuses_text(e, self@),
    {
        Err(SerializerError::UnsupportedText(self.format_metadata()))
    }

    /// A byte string: its bytes, as they are, with no length in front.
    pub fn serialize_bytes(&mut self, v: &[u8]) -> (r: Result<(), SerializerError>)
        requires
            old(self)@.has_room(v@.len()),
        ensures
            r is Ok,
            wrote(old(self)@, final(self)@, v@),
    {
        buffer_put_slice(&mut self.output, v);
        Ok(())
    }

    /// `None`: nothing is written.
    pub fn serialize_none(&self) -> (r: Result<(), SerializerError>)
        ensures
            r is Ok,
    {
        Ok(())
    }

    /// `()`: nothing is written.
    pub fn serialize_unit(&self) -> (r: Result<(), SerializerError>)
        ensures
            r is Ok,
    {
        Ok(())
    }

    /// A unit struct: nothing is written.
    pub fn serialize_unit_struct(&self, name: &str) -> (r: Result<(), SerializerError>)
        ensures
            r is Ok,
    {
        Ok(())
    }

    /// A unit variant: nothing is written, not even the variant's index.
    pub fn serialize_unit_variant(&self, name: &str, variant_index: u32, variant: &str) -> (r:
        Result<(), SerializerError>)
        ensures
            r is Ok,
    {
        Ok(())
    }

    /// Saves the current names as those of the innermost enclosing container.
    fn save_names(&mut self)
        ensures
            final(self)@.output == old(self)@.output,
            final(self)@.names() == old(self)@.names(),
            final(self)@.enclosing == old(self)@.enclosing.push(old(self)@.names()),
    {
        let saved = (
            self.err_type_metadata.clone(),
            self.err_variant_metadata.clone(),
            self.err_field_metadata.clone(),
        );
        let ghost before = self.enclosing@;
        self.enclosing.push(saved);
        proof {
            assert(self.enclosing@.map_values(|n: (String, String, String)| names_chars(n))
                =~= before.map_values(|n: (String, String, String)| names_chars(n)).push(
                names_chars(saved),
            ));
        }
    }

    /// The end of the innermost struct, tuple struct, variant or newtype
    /// value that was begun: errors from here on name the container that
    /// encloses it again, as before it began. Nothing is written.
    pub fn end_container(&mut self) -> (r: Result<(), SerializerError>)
        ensures
            r is Ok,
            ended(old(self)@, final(self)@),
    {
        let ghost before = self.enclosing@;
        match self.enclosing.pop() {
            Some(saved) => {
                proof {
                    assert(self.enclosing@.map_values(|n: (String, String, String)| names_chars(n))
                        =~= before.map_values(|n: (String, String, String)| names_chars(n)).drop_last());
                }
                let (t, v, f) = saved;
                self.err_type_metadata = t;
                self.err_variant_metadata = v;
                self.err_field_metadata = f;
            },
            None => {},
        }
        Ok(())
    }

    /// Records that a value of type `name`, outside any variant, is being
    /// written.
    fn enter_type(&mut self, name: &str)
        ensures
            entered(old(self)@, final(self)@, name@, Seq::empty()),
    {
        self.save_names();
        self.err_type_metadata = String::from_str(name);
        self.err_field_metadata = String::new();
        self.err_variant_metadata = String::new();
    }

    /// Records that variant `variant` of type `name` is being written.
    fn enter_variant(&mut self, name: &str, variant: &str)
        ensures
            entered(old(self)@, final(self)@, name@, variant@),
    {
        self.save_names();
        self.err_type_metadata = String::from_str(name);
        self.err_variant_metadata = String::from_str(variant);
        self.err_field_metadata = String::new();
    }

    /// The start of a newtype struct `name`: nothing is written; its inner
    /// value follows, and errors in it name type `name` until `end_container`.
    pub fn serialize_newtype_struct(&mut self, name: &str) -> (r: Result<(), SerializerError>)
        ensures
            r is Ok,
            entered(old(self)@, final(self)@, name@, Seq::empty()),
    {
        self.enter_type(name);
        Ok(())
    }

    /// The start of newtype variant `variant` of `name`: nothing is written,
    /// not even the variant's index; errors in its value name both, until
    /// `end_container`.
    pub fn serialize_newtype_variant(&mut self, name: &str, variant_index: u32, variant: &str) -> (r:
        Result<(), SerializerError>)
        ensures
            r is Ok,
            entered(old(self)@, final(self)@, name@, variant@),
    {
        self.enter_variant(name, variant);
        Ok(())
    }

    /// The start of a sequence: no length and no marker is written.
    pub fn serialize_seq(&self, len: Option<usize>) -> (r: Result<(), SerializerError>)
        ensures
            r is Ok,
    {
        Ok(())
    }

    /// The start of a tuple: no length and no marker is written.
    pub fn serialize_tuple(&self, len: usize) -> (r: Result<(), SerializerError>)
        ensures
            r is Ok,
    {
        Ok(())
    }

    /// The start of tuple struct `name`: nothing is written; errors in its
    /// fields name type `name`, until `end_container`.
    pub fn serialize_tuple_struct(&mut self, name: &str, len: usize) -> (r: Result<
        (),
        SerializerError,
    >)
        ensures
            r is Ok,
            entered(old(self)@, final(self)@, name@, Seq::empty()),
    {
        self.enter_type(name);
        Ok(())
    }

    /// The start of tuple variant `variant` of `name`: nothing is written;
    /// errors in its fields name both, until `end_container`.
    pub fn serialize_tuple_variant(
        &mut self,
        name: &str,
        variant_index: u32,
        variant: &str,
        len: usize,
    ) -> (r: Result<(), SerializerError>)
        ensures
            r is Ok,
            entered(old(self)@, final(self)@, name@, variant@),
    {
        self.enter_variant(name, variant);
        Ok(())
    }

    /// A map: refused, as the format has none.
    pub fn serialize_map(&self, len: Option<usize>) -> (r: Result<(), SerializerError>)
        ensures
            r matches Err(e) && refuses_map(e, self@),
    {
        Err(SerializerError::UnsupportedMap(self.format_metadata()))
    }

    /// The start of struct `name`: nothing is written; errors in its fields
    /// name type `name`, until `end_container`.
    pub fn serialize_struct(&mut self, name: &str, len: usize) -> (r: Result<(), SerializerError>)
        ensures
            r is Ok,
            entered(old(self)@, final(self)@, name@, Seq::empty()),
    {
        self.enter_type(name);
        Ok(())
    }

    /// The start of struct variant `variant` of `name`: nothing is written;
    /// errors in its fields name both, until `end_container`.
    pub fn serialize_struct_variant(
        &mut self,
        name: &str,
        variant_index: u32,
        variant: &str,
        len: usize,
    ) -> (r: Result<(), SerializerError>)
        ensures
            r is Ok,
            entered(old(self)@, final(self)@, name@, variant@),
    {
        self.enter_variant(name, variant);
        Ok(())
    }

    /// The start of field `key` of a struct or struct variant: nothing is
    /// written (no name, no length); errors in its value name the field.
    pub fn serialize_field(&mut self, key: &str) -> (r: Result<(), SerializerError>)
        ensures
            r is Ok,
            final(self)@.output == old(self)@.output,
            final(self)@.type_meta == old(self)@.type_meta,
            final(self)@.variant_meta == old(self)@.variant_meta,
            final(self)@.field_meta == key@,
            final(self)@.enclosing == old(self)@.enclosing,
    {
        self.err_field_metadata = String::from_str(key);
        Ok(())
    }

    /// A key of a map: refused, as the format has no maps.
    pub fn serialize_key(&self) -> (r: Result<(), SerializerError>)
        ensures
            r matches Err(e) && refuses_map(e, self@),
    {
        Err(SerializerError::UnsupportedMap(self.format_metadata()))
    }

    /// A value of a map: refused, as the format has no maps.
    pub fn serialize_value(&self) -> (r: Result<(), SerializerError>)
        ensures
            r matches Err(e) && refuses_map(e, self@),
    {
        Err(SerializerError::UnsupportedMap(self.format_metadata()))
    }

    /// An entry of a map: refused, as the format has no maps.
    pub fn serialize_entry(&self) -> (r: Result<(), SerializerError>)
        ensures
            r matches Err(e) && refuses_map(e, self@),
    {
        Err(SerializerError::UnsupportedMap(self.format_metadata()))
    }

    /// The end of a map: refused, as the format has no maps.
    pub fn end_map(&self) -> (r: Result<(), SerializerError>)
        ensures
            r matches Err(e) && refuses_map(e, self@),
    {
        Err(SerializerError::UnsupportedMap(self.format_metadata()))
    }
}

} // verus!
