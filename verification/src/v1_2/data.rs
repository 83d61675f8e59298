//! File system data: the header of a file.
use crate::codec::{StdError, WithOffset, WithSize};
use crate::decodable::{
    be_bytes_u32, from_be_u32, lemma_be_u32_roundtrip, splice, written_at_head,
};
use vstd::prelude::*;

verus! {

/// Byte size of an encoded file header.
pub const HEADER_SIZE: usize = 12;

/// The bit that stands for `b`.
pub open spec fn bit(b: bool) -> u8 {
    if b {
        1
    } else {
        0
    }
}

/// Permissions of a class of users.
#[derive(Clone, Copy, Debug, PartialEq, Eq)]
pub struct UserPermissions {
    pub read: bool,
    pub write: bool,
    pub run: bool,
}

/// The three permission bits `rwx` of a class of users.
pub open spec fn user_bits(u: UserPermissions) -> u8 {
    (bit(u.read) << 2u8) | (bit(u.write) << 1u8) | bit(u.run)
}

/// The permissions held by the three bits `rwx` of `b`.
pub open spec fn user_from_bits(b: u8) -> UserPermissions {
    UserPermissions { read: b & 0x04 != 0, write: b & 0x02 != 0, run: b & 0x01 != 0 }
}

/// Permissions of a file.
#[derive(Clone, Copy, Debug, PartialEq, Eq)]
pub struct Permissions {
    pub encrypted: bool,
    pub executable: bool,
    pub user: UserPermissions,
    pub guest: UserPermissions,
}

/// Byte of encoded permissions.
pub open spec fn permissions_byte(p: Permissions) -> u8 {
    (bit(p.encrypted) << 7u8) | (bit(p.executable) << 6u8) | (user_bits(p.user) << 3u8)
        | user_bits(p.guest)
}

/// The permissions held by the byte `b`.
pub open spec fn permissions_from_byte(b: u8) -> Permissions {
    Permissions {
        encrypted: b & 0x80 != 0,
        executable: b & 0x40 != 0,
        user: user_from_bits((b >> 3u8) & 0x07),
        guest: user_from_bits(b & 0x07),
    }
}

/// The permissions read back from their byte are those that were written.
pub proof fn lemma_permissions_byte(
    enc: bool,
    exe: bool,
    ur: bool,
    uw: bool,
    ux: bool,
    gr: bool,
    gw: bool,
    gx: bool,
    b: u8,
)
    by (bit_vector)
    requires
        b == ((if enc { 1u8 } else { 0u8 }) << 7u8) | ((if exe { 1u8 } else { 0u8 }) << 6u8) | ((((
        if ur { 1u8 } else { 0u8 }) << 2u8) | ((if uw { 1u8 } else { 0u8 }) << 1u8) | (if ux {
            1u8
        } else {
            0u8
        })) << 3u8) | (((if gr { 1u8 } else { 0u8 }) << 2u8) | ((if gw { 1u8 } else { 0u8 })
            << 1u8) | (if gx { 1u8 } else { 0u8 })),
    ensures
        (b & 0x80 != 0) == enc,
        (b & 0x40 != 0) == exe,
        (((b >> 3u8) & 0x07) & 0x04 != 0) == ur,
        (((b >> 3u8) & 0x07) & 0x02 != 0) == uw,
        (((b >> 3u8) & 0x07) & 0x01 != 0) == ux,
        ((b & 0x07) & 0x04 != 0) == gr,
        ((b & 0x07) & 0x02 != 0) == gw,
        ((b & 0x07) & 0x01 != 0) == gx,
{
}

/// Condition of the action held by a file.
#[derive(Clone, Copy, Debug, PartialEq, Eq)]
pub enum ActionCondition {
    List,
    Read,
    Write,
    WriteFlush,
    Rfu4,
    Rfu5,
    Rfu6,
    Rfu7,
}

impl ActionCondition {
    /// Number of the condition, on 3 bits.
    pub open spec fn spec_code(self) -> u8 {
        match self {
            Self::List => 0,
            Self::Read => 1,
            Self::Write => 2,
            Self::WriteFlush => 3,
            Self::Rfu4 => 4,
            Self::Rfu5 => 5,
            Self::Rfu6 => 6,
            Self::Rfu7 => 7,
        }
    }

    /// The condition whose number is the 3 low bits of `n`.
    pub open spec fn spec_from(n: u8) -> Self {
        match n & 0x07 {
            0 => Self::List,
            1 => Self::Read,
            2 => Self::Write,
            3 => Self::WriteFlush,
            4 => Self::Rfu4,
            5 => Self::Rfu5,
            6 => Self::Rfu6,
            _ => Self::Rfu7,
        }
    }

    pub fn code(self) -> (r: u8)
        ensures
            r == self.spec_code(),
    {
        match self {
            Self::List => 0,
            Self::Read => 1,
            Self::Write => 2,
            Self::WriteFlush => 3,
            Self::Rfu4 => 4,
            Self::Rfu5 => 5,
            Self::Rfu6 => 6,
            Self::Rfu7 => 7,
        }
    }

    /// The condition whose number is the 3 low bits of `n`.
    pub fn from(n: u8) -> (r: Self)
        ensures
            r == Self::spec_from(n),
    {
        match n & 0x07 {
            0 => Self::List,
            1 => Self::Read,
            2 => Self::Write,
            3 => Self::WriteFlush,
            4 => Self::Rfu4,
            5 => Self::Rfu5,
            6 => Self::Rfu6,
            _ => Self::Rfu7,
        }
    }
}

/// Storage class of a file.
#[derive(Clone, Copy, Debug, PartialEq, Eq)]
pub enum StorageClass {
    Transient,
    Volatile,
    Restorable,
    Permanent,
}

impl StorageClass {
    /// Number of the class, on 2 bits.
    pub open spec fn spec_code(self) -> u8 {
        match self {
            Self::Transient => 0,
            Self::Volatile => 1,
            Self::Restorable => 2,
            Self::Permanent => 3,
        }
    }

    /// The class whose number is the 2 low bits of `n`.
    pub open spec fn spec_from(n: u8) -> Self {
        match n & 0x03 {
            0 => Self::Transient,
            1 => Self::Volatile,
            2 => Self::Restorable,
            _ => Self::Permanent,
        }
    }

    pub fn code(self) -> (r: u8)
        ensures
            r == self.spec_code(),
    {
        match self {
            Self::Transient => 0,
            Self::Volatile => 1,
            Self::Restorable => 2,
            Self::Permanent => 3,
        }
    }

    /// The class whose number is the 2 low bits of `n`.
    pub fn from(n: u8) -> (r: Self)
        ensures
            r == Self::spec_from(n),
    {
        match n & 0x03 {
            0 => Self::Transient,
            1 => Self::Volatile,
            2 => Self::Restorable,
            _ => Self::Permanent,
        }
    }
}

/// Properties of a file.
#[derive(Clone, Copy, Debug, PartialEq, Eq)]
pub struct FileProperties {
    /// The action of the file is enabled
    pub act_en: bool,
    pub act_cond: ActionCondition,
    pub storage_class: StorageClass,
}

/// Byte of encoded properties; its bits 2 and 3 are left clear.
pub open spec fn properties_byte(p: FileProperties) -> u8 {
    (bit(p.act_en) << 7u8) | (p.act_cond.spec_code() << 4u8) | p.storage_class.spec_code()
}

/// The properties held by the byte `b`; its bits 2 and 3 are not read.
pub open spec fn properties_from_byte(b: u8) -> FileProperties {
    FileProperties {
        act_en: b & 0x80 != 0,
        act_cond: ActionCondition::spec_from(b >> 4u8),
        storage_class: StorageClass::spec_from(b),
    }
}

/// The properties read back from their byte are those that were written.
pub proof fn lemma_properties_byte(en: bool, cond: u8, class: u8, b: u8)
    by (bit_vector)
    requires
        cond < 8,
        class < 4,
        b == ((if en { 1u8 } else { 0u8 }) << 7u8) | (cond << 4u8) | class,
    ensures
        (b & 0x80 != 0) == en,
        (b >> 4u8) & 0x07 == cond,
        b & 0x03 == class,
{
}

/// Header of a file.
#[derive(Clone, Copy, Debug, PartialEq, Eq)]
pub struct FileHeader {
    pub permissions: Permissions,
    pub properties: FileProperties,
    /// File holding the ALP command run by the action of this file
    pub alp_cmd_fid: u8,
    /// File holding the interface configuration used by the action of this file
    pub interface_file_id: u8,
    pub file_size: u32,
    pub allocated_size: u32,
}

impl FileHeader {
    /// Bytes of the encoded header: sizes are written big endian.
    pub open spec fn encoding(self) -> Seq<u8> {
        seq![
            permissions_byte(self.permissions),
            properties_byte(self.properties),
            self.alp_cmd_fid,
            self.interface_file_id,
        ] + be_bytes_u32(self.file_size) + be_bytes_u32(self.allocated_size)
    }

    /// The header encoded at the start of `data`.
    pub open spec fn decoded(data: Seq<u8>) -> Self {
        FileHeader {
            permissions: permissions_from_byte(data[0]),
            properties: properties_from_byte(data[1]),
            alp_cmd_fid: data[2],
            interface_file_id: data[3],
            file_size: from_be_u32(data[4], data[5], data[6], data[7]),
            allocated_size: from_be_u32(data[8], data[9], data[10], data[11]),
        }
    }

    pub fn encoded_size(&self) -> (r: usize)
        ensures
            r == self.encoding().len(),
    {
        HEADER_SIZE
    }

    /// Writes the encoded header at `pos` in `out`.
    pub fn encode_at(&self, out: &mut [u8], pos: usize) -> (r: usize)
        requires
            pos + HEADER_SIZE <= old(out)@.len(),
        ensures
            r == self.encoding().len(),
            final(out)@ == splice(old(out)@, pos as int, self.encoding()),
    {
        let p = self.permissions;
        out[pos] = (bool_bit(p.encrypted) << 7u8) | (bool_bit(p.executable) << 6u8) | (
        encode_user(p.user) << 3u8) | encode_user(p.guest);
        let q = self.properties;
        out[pos + 1] = (bool_bit(q.act_en) << 7u8) | (q.act_cond.code() << 4u8)
            | q.storage_class.code();
        out[pos + 2] = self.alp_cmd_fid;
        out[pos + 3] = self.interface_file_id;
        let s = self.file_size;
        out[pos + 4] = (s >> 24u32) as u8;
        out[pos + 5] = (s >> 16u32) as u8;
        out[pos + 6] = (s >> 8u32) as u8;
        out[pos + 7] = s as u8;
        let a = self.allocated_size;
        out[pos + 8] = (a >> 24u32) as u8;
        out[pos + 9] = (a >> 16u32) as u8;
        out[pos + 10] = (a >> 8u32) as u8;
        out[pos + 11] = a as u8;
        assert(out@ =~= splice(old(out)@, pos as int, self.encoding()));
        HEADER_SIZE
    }

    /// Writes the encoded header at the start of `out`, which must be large enough.
    pub fn encode_in(&self, out: &mut [u8]) -> (r: usize)
        requires
            old(out)@.len() >= HEADER_SIZE,
        ensures
            r == self.encoding().len(),
            written_at_head(final(out)@, old(out)@, self.encoding()),
    {
        self.encode_at(out, 0)
    }

    /// Every value of the bits is a header: only the size is checked.
    ///
    /// # Errors
    /// Fails with the number of missing bytes if the input is too short.
    pub fn decode(out: &[u8]) -> (r: Result<WithSize<Self>, WithOffset<StdError>>)
        ensures
            r is Ok <==> out@.len() >= HEADER_SIZE,
            r matches Ok(w) ==> w.size == HEADER_SIZE && w.value == Self::decoded(out@),
            r matches Err(e) ==> e == (WithOffset {
                offset: 0,
                value: StdError::MissingBytes((HEADER_SIZE - out@.len()) as usize),
            }),
    {
        if out.len() < HEADER_SIZE {
            return Err(WithOffset::new_head(StdError::MissingBytes(HEADER_SIZE - out.len())));
        }
        let b = out[0];
        let permissions = Permissions {
            encrypted: b & 0x80 != 0,
            executable: b & 0x40 != 0,
            user: decode_user((b >> 3u8) & 0x07),
            guest: decode_user(b & 0x07),
        };
        let c = out[1];
        let properties = FileProperties {
            act_en: c & 0x80 != 0,
            act_cond: ActionCondition::from(c >> 4u8),
            storage_class: StorageClass::from(c),
        };
        let file_size = ((out[4] as u32) << 24u32) | ((out[5] as u32) << 16u32) | ((
        out[6] as u32) << 8u32) | (out[7] as u32);
        let allocated_size = ((out[8] as u32) << 24u32) | ((out[9] as u32) << 16u32) | ((
        out[10] as u32) << 8u32) | (out[11] as u32);
        Ok(
            WithSize {
                value: FileHeader {
                    permissions,
                    properties,
                    alp_cmd_fid: out[2],
                    interface_file_id: out[3],
                    file_size,
                    allocated_size,
                },
                size: HEADER_SIZE,
            },
        )
    }
}

fn bool_bit(b: bool) -> (r: u8)
    ensures
        r == bit(b),
{
    if b {
        1
    } else {
        0
    }
}

fn encode_user(u: UserPermissions) -> (r: u8)
    ensures
        r == user_bits(u),
{
    (bool_bit(u.read) << 2u8) | (bool_bit(u.write) << 1u8) | bool_bit(u.run)
}

fn decode_user(b: u8) -> (r: UserPermissions)
    ensures
        r == user_from_bits(b),
{
    UserPermissions { read: b & 0x04 != 0, write: b & 0x02 != 0, run: b & 0x01 != 0 }
}

/// Decoding an encoded header gives it back, whatever follows it.
pub proof fn lemma_roundtrip(h: FileHeader, rest: Seq<u8>)
    ensures
        (h.encoding() + rest).len() >= HEADER_SIZE,
        FileHeader::decoded(h.encoding() + rest) == h,
{
    let d = h.encoding() + rest;
    let p = h.permissions;
    lemma_permissions_byte(
        p.encrypted,
        p.executable,
        p.user.read,
        p.user.write,
        p.user.run,
        p.guest.read,
        p.guest.write,
        p.guest.run,
        d[0],
    );
    let q = h.properties;
    lemma_properties_byte(q.act_en, q.act_cond.spec_code(), q.storage_class.spec_code(), d[1]);
    assert(((d[1] >> 4u8) & 0x07) == q.act_cond.spec_code());
    assert(d[1] & 0x03 == q.storage_class.spec_code());
    lemma_be_u32_roundtrip(h.file_size);
    lemma_be_u32_roundtrip(h.allocated_size);
    assert(d[4] == (h.file_size >> 24u32) as u8);
    assert(d[8] == (h.allocated_size >> 24u32) as u8);
}

/// Each action condition has its ALP number: list 0, read 1, write 2, write flush 3, and 4 to 7
/// reserved; each storage class too: transient 0, volatile 1, restorable 2, permanent 3.
/// Decoding keeps the low bits of a byte and gives the value of that number.
pub proof fn lemma_file_property_numbers()
    ensures
        ActionCondition::List.spec_code() == 0,
        ActionCondition::Read.spec_code() == 1,
        ActionCondition::Write.spec_code() == 2,
        ActionCondition::WriteFlush.spec_code() == 3,
        ActionCondition::Rfu4.spec_code() == 4,
        ActionCondition::Rfu5.spec_code() == 5,
        ActionCondition::Rfu6.spec_code() == 6,
        ActionCondition::Rfu7.spec_code() == 7,
        StorageClass::Transient.spec_code() == 0,
        StorageClass::Volatile.spec_code() == 1,
        StorageClass::Restorable.spec_code() == 2,
        StorageClass::Permanent.spec_code() == 3,
        forall|n: u8| (#[trigger] ActionCondition::spec_from(n)).spec_code() == n & 0x07,
        forall|n: u8| (#[trigger] StorageClass::spec_from(n)).spec_code() == n & 0x03,
{
    assert forall|n: u8| (#[trigger] ActionCondition::spec_from(n)).spec_code() == n & 0x07 by {
        assert(n & 0x07 < 8) by (bit_vector);
    }
    assert forall|n: u8| (#[trigger] StorageClass::spec_from(n)).spec_code() == n & 0x03 by {
        assert(n & 0x03 < 4) by (bit_vector);
    }
}

} // verus!
