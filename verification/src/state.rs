//! Record schema: House and Title layouts, their invariants and their
//! fixed-size binary encodings.
//!
//! Both records use a fixed-order layout: integers little-endian, text
//! fields exactly 128 bytes (null-padded), addresses 32 raw bytes, and a
//! Title's vassal list as a 32-bit count followed by the vassal addresses,
//! zero-padded to the maximum fan-out. Storage is always allocated at the
//! maximum serialized size, so later growth never requires reallocation.

use vstd::prelude::*;
use vstd::bytes::{
    spec_u16_to_le_bytes, spec_u16_from_le_bytes, lemma_auto_spec_u16_to_from_le_bytes,
    spec_u32_to_le_bytes, spec_u32_from_le_bytes, lemma_auto_spec_u32_to_from_le_bytes,
    spec_u64_to_le_bytes, spec_u64_from_le_bytes, lemma_auto_spec_u64_to_from_le_bytes,
};
use crate::addr::{Address, bytes_dup};
use crate::bytes::{
    spec_i32_to_le_bytes, spec_i32_from_le_bytes, lemma_auto_spec_i32_to_from_le_bytes,
    put_u8, put_u16, put_u32, put_u64, put_i32, put_bytes, put_zeros, take_bytes, get_u16,
    get_u32, get_u64, get_i32,
};
use crate::error::TitleError;

verus! {

/// Maximum number of vassals per title.
pub const MAX_VASSALS: usize = 64;

/// Minimum rank value.
pub const MIN_RANK: u8 = 1;

/// Maximum rank value.
pub const MAX_RANK: u8 = 6;

/// Minimum kind value.
pub const MIN_KIND: u8 = 1;

/// Maximum kind value.
pub const MAX_KIND: u8 = 2;

/// A user's House: their nobility account. A House may hold 0 or more
/// titles.
#[derive(Debug)]
pub struct HouseData {
    /// Struct version, allows for upgrades to the program.
    pub version: u16,
    /// Number of tokens governing this house. Immutable. Default is 1, in
    /// which case the client wallet has the authority to govern the house.
    pub governance_token_supply: u16,
    /// The encoded URI for the coat of arms, null-padded to 128 bytes.
    pub coat_of_arms: Vec<u8>,
    /// The encoded display name, null-padded to 128 bytes. Immutable.
    pub display_name: Vec<u8>,
    /// Total prestige accumulated by this house.
    pub prestige: i32,
    /// Total virtue accumulated by this house.
    pub virtue: i32,
}

/// The mathematical image of a House record.
pub struct HouseDataView {
    pub version: u16,
    pub governance_token_supply: u16,
    pub coat_of_arms: Seq<u8>,
    pub display_name: Seq<u8>,
    pub prestige: i32,
    pub virtue: i32,
}

impl View for HouseData {
    type V = HouseDataView;

    open spec fn view(&self) -> HouseDataView {
        HouseDataView {
            version: self.version,
            governance_token_supply: self.governance_token_supply,
            coat_of_arms: self.coat_of_arms@,
            display_name: self.display_name@,
            prestige: self.prestige,
            virtue: self.virtue,
        }
    }
}

impl HouseDataView {
    /// Well-formed: both text fields hold exactly their fixed width.
    pub open spec fn wf(&self) -> bool {
        &&& self.coat_of_arms.len() == 128
        &&& self.display_name.len() == 128
    }
}

impl HouseData {
    /// Version to fill in on new created accounts.
    pub const CURRENT_VERSION: u16 = 1;

    /// Serialized size of the struct.
    pub const SIZE: usize = 268;

    /// Well-formed: both text fields hold exactly their fixed width.
    pub open spec fn wf(&self) -> bool {
        self@.wf()
    }

    /// Whether this record was written by the current schema.
    pub fn is_initialized(&self) -> (r: bool)
        ensures
            r == (self.version == HouseData::CURRENT_VERSION
                && self.governance_token_supply > 0),
    {
        self.version == HouseData::CURRENT_VERSION && self.governance_token_supply > 0
    }

    /// Encode this record into its fixed 268-byte layout.
    pub fn serialize(&self) -> (out: Vec<u8>)
        requires
            self.wf(),
        ensures
            out@ == spec_house_bytes(self@),
            out@.len() == HouseData::SIZE,
    {
        let mut out: Vec<u8> = Vec::new();
        put_u16(&mut out, self.version);
        put_u16(&mut out, self.governance_token_supply);
        put_bytes(&mut out, &self.coat_of_arms);
        put_bytes(&mut out, &self.display_name);
        put_i32(&mut out, self.prestige);
        put_i32(&mut out, self.virtue);
        proof {
            lemma_auto_spec_u16_to_from_le_bytes();
            lemma_auto_spec_i32_to_from_le_bytes();
            assert(out@ =~= spec_house_bytes(self@));
        }
        out
    }

    /// Decode a fixed 268-byte layout back into a record.
    pub fn deserialize(data: &Vec<u8>) -> (r: Result<HouseData, TitleError>)
        ensures
            match spec_parse_house(data@) {
                Some(v) => r matches Ok(h) && h@ == v && h.wf(),
                None => r == Err::<HouseData, TitleError>(TitleError::DeserializationFailure),
            },
    {
        if data.len() != Self::SIZE {
            return Err(TitleError::DeserializationFailure);
        }
        let h = HouseData {
            version: get_u16(data, 0),
            governance_token_supply: get_u16(data, 2),
            coat_of_arms: take_bytes(data, 4, 128),
            display_name: take_bytes(data, 132, 128),
            prestige: get_i32(data, 260),
            virtue: get_i32(data, 264),
        };
        Ok(h)
    }
}

/// The fixed 268-byte image of a House record.
pub open spec fn spec_house_bytes(h: HouseDataView) -> Seq<u8> {
    spec_u16_to_le_bytes(h.version) + spec_u16_to_le_bytes(h.governance_token_supply)
        + h.coat_of_arms + h.display_name + spec_i32_to_le_bytes(h.prestige)
        + spec_i32_to_le_bytes(h.virtue)
}

/// The House record read back from a 268-byte image; `None` if the image
/// has the wrong size.
pub open spec fn spec_parse_house(s: Seq<u8>) -> Option<HouseDataView> {
    if s.len() == 268 {
        Some(
            HouseDataView {
                version: spec_u16_from_le_bytes(s.subrange(0, 2)),
                governance_token_supply: spec_u16_from_le_bytes(s.subrange(2, 4)),
                coat_of_arms: s.subrange(4, 132),
                display_name: s.subrange(132, 260),
                prestige: spec_i32_from_le_bytes(s.subrange(260, 264)),
                virtue: spec_i32_from_le_bytes(s.subrange(264, 268)),
            },
        )
    } else {
        None
    }
}

/// A noble Title: a node in the liege/vassal tree.
#[derive(Debug)]
pub struct TitleData {
    /// Struct version, allows for upgrades to the program.
    pub version: u8,
    /// Lifecycle state: 0 uninitialized, 1 created but inactive, 2 active.
    pub lifecycle_state: u8,
    /// Title rank. Immutable. 1 is the root; larger is further from it.
    pub rank: u8,
    /// Title type. Immutable. 1 noble, 2 religious.
    pub kind: u8,
    /// Required stake, in lamports, to hold the title. Immutable. Also the
    /// price floor for the title.
    pub required_stake_lamports: u64,
    /// Advertised sale price, in lamports.
    pub sale_price_lamports: u64,
    /// The encoded URI for the coat of arms, null-padded to 128 bytes.
    pub coat_of_arms: Vec<u8>,
    /// The encoded title name, null-padded to 128 bytes. Immutable.
    pub display_name: Vec<u8>,
    /// House address holding the title. Never all zeroes.
    pub holder_house_address: Address,
    /// Stake account address. All zeroes until the title is first sold.
    pub stake_address: Address,
    /// Liege title address. Immutable. All zeroes iff this is the root.
    pub liege_address: Address,
    /// Index of the title in the list of the liege's vassals. Immutable.
    /// Used to form a seed for this title's address.
    pub liege_vassal_index: u8,
    /// Vassal title addresses, in order of creation.
    pub vassal_addresses: Vec<Address>,
}

/// The mathematical image of a Title record.
pub struct TitleDataView {
    pub version: u8,
    pub lifecycle_state: u8,
    pub rank: u8,
    pub kind: u8,
    pub required_stake_lamports: u64,
    pub sale_price_lamports: u64,
    pub coat_of_arms: Seq<u8>,
    pub display_name: Seq<u8>,
    pub holder_house_address: Seq<u8>,
    pub stake_address: Seq<u8>,
    pub liege_address: Seq<u8>,
    pub liege_vassal_index: u8,
    pub vassal_addresses: Seq<Seq<u8>>,
}

impl View for TitleData {
    type V = TitleDataView;

    open spec fn view(&self) -> TitleDataView {
        TitleDataView {
            version: self.version,
            lifecycle_state: self.lifecycle_state,
            rank: self.rank,
            kind: self.kind,
            required_stake_lamports: self.required_stake_lamports,
            sale_price_lamports: self.sale_price_lamports,
            coat_of_arms: self.coat_of_arms@,
            display_name: self.display_name@,
            holder_house_address: self.holder_house_address@,
            stake_address: self.stake_address@,
            liege_address: self.liege_address@,
            liege_vassal_index: self.liege_vassal_index,
            vassal_addresses: self.vassal_addresses@.map_values(|a: Address| a@),
        }
    }
}

impl TitleDataView {
    /// Well-formed: fixed-width text, 32-byte addresses, and a vassal list
    /// within the fan-out cap.
    pub open spec fn wf(&self) -> bool {
        &&& self.coat_of_arms.len() == 128
        &&& self.display_name.len() == 128
        &&& self.holder_house_address.len() == 32
        &&& self.stake_address.len() == 32
        &&& self.liege_address.len() == 32
        &&& self.vassal_addresses.len() <= 64
        &&& forall|i: int|
            0 <= i < self.vassal_addresses.len() ==> #[trigger] self.vassal_addresses[i].len()
                == 32
    }
}

impl TitleData {
    /// Version to fill in on new created accounts.
    pub const CURRENT_VERSION: u8 = 1;

    /// Lifecycle state that is created but not active (never sold/staked).
    pub const INACTIVE_STATE: u8 = 1;

    /// Lifecycle state that is active (staked).
    pub const ACTIVE_STATE: u8 = 2;

    /// Serialized maximum size of the struct.
    pub const SIZE: usize = 2425;

    /// Well-formed: see [`TitleDataView::wf`].
    pub open spec fn wf(&self) -> bool {
        self@.wf()
    }

    /// Whether this record was written by the current schema.
    pub fn is_initialized(&self) -> (r: bool)
        ensures
            r == (self.version == TitleData::CURRENT_VERSION && self.rank != 0 && self.kind != 0
                && self.required_stake_lamports > 0 && self.sale_price_lamports > 0),
    {
        self.version == TitleData::CURRENT_VERSION && self.rank != 0 && self.kind != 0
            && self.required_stake_lamports > 0 && self.sale_price_lamports > 0
    }

    /// Encode this record into its fixed 2425-byte layout.
    pub fn serialize(&self) -> (out: Vec<u8>)
        requires
            self.wf(),
        ensures
            out@ == spec_title_bytes(self@),
            out@.len() == TitleData::SIZE,
    {
        let mut out: Vec<u8> = Vec::new();
        put_u8(&mut out, self.version);
        put_u8(&mut out, self.lifecycle_state);
        put_u8(&mut out, self.rank);
        put_u8(&mut out, self.kind);
        put_u64(&mut out, self.required_stake_lamports);
        put_u64(&mut out, self.sale_price_lamports);
        put_bytes(&mut out, &self.coat_of_arms);
        put_bytes(&mut out, &self.display_name);
        put_bytes(&mut out, &self.holder_house_address.bytes);
        put_bytes(&mut out, &self.stake_address.bytes);
        put_bytes(&mut out, &self.liege_address.bytes);
        put_u8(&mut out, self.liege_vassal_index);
        let count = self.vassal_addresses.len();
        put_u32(&mut out, count as u32);
        let ghost vsv = self@.vassal_addresses;
        let ghost base = out@;
        let mut i: usize = 0;
        while i < count
            invariant
                i <= count,
                count == vsv.len(),
                count <= 64,
                vsv == self@.vassal_addresses,
                self.wf(),
                count == self.vassal_addresses@.len(),
                forall|j: int|
                    0 <= j < count ==> #[trigger] vsv[j] == self.vassal_addresses@[j]@,
                out@ == base + cat_addrs(vsv.take(i as int)),
            decreases count - i,
        {
            proof {
                lemma_cat_addrs_take_succ(vsv, i as int);
            }
            put_bytes(&mut out, &self.vassal_addresses[i].bytes);
            i = i + 1;
        }
        proof {
            assert(vsv.take(count as int) =~= vsv);
        }
        put_zeros(&mut out, 32 * (MAX_VASSALS - count));
        proof {
            lemma_auto_spec_u64_to_from_le_bytes();
            lemma_auto_spec_u32_to_from_le_bytes();
            lemma_cat_addrs_len(vsv);
            assert(out@ =~= spec_title_bytes(self@));
        }
        out
    }

    /// Decode a fixed 2425-byte layout back into a record. Trailing
    /// padding after the vassal list is ignored.
    pub fn deserialize(data: &Vec<u8>) -> (r: Result<TitleData, TitleError>)
        ensures
            match spec_parse_title(data@) {
                Some(v) => r matches Ok(t) && t@ == v && t.wf(),
                None => r == Err::<TitleData, TitleError>(TitleError::DeserializationFailure),
            },
    {
        if data.len() != Self::SIZE {
            return Err(TitleError::DeserializationFailure);
        }
        let count32 = get_u32(data, 373);
        if count32 > 64 {
            return Err(TitleError::DeserializationFailure);
        }
        let count = count32 as usize;
        let mut vassals: Vec<Address> = Vec::new();
        let ghost target = spec_parse_title(data@).unwrap().vassal_addresses;
        let mut i: usize = 0;
        while i < count
            invariant
                i <= count,
                count <= 64,
                data@.len() == 2425,
                target == spec_parse_title(data@).unwrap().vassal_addresses,
                target.len() == count,
                forall|j: int|
                    0 <= j < count ==> #[trigger] target[j] == data@.subrange(
                        377 + 32 * j,
                        377 + 32 * j + 32,
                    ),
                vassals@.len() == i,
                forall|j: int| 0 <= j < i ==> (#[trigger] vassals@[j])@ == target[j],
                forall|j: int| 0 <= j < i ==> (#[trigger] vassals@[j]).wf(),
            decreases count - i,
        {
            let a = Address::new(take_bytes(data, 377 + 32 * i, 32));
            vassals.push(a);
            i = i + 1;
        }
        let t = TitleData {
            version: *data.get(0).unwrap(),
            lifecycle_state: *data.get(1).unwrap(),
            rank: *data.get(2).unwrap(),
            kind: *data.get(3).unwrap(),
            required_stake_lamports: get_u64(data, 4),
            sale_price_lamports: get_u64(data, 12),
            coat_of_arms: take_bytes(data, 20, 128),
            display_name: take_bytes(data, 148, 128),
            holder_house_address: Address::new(take_bytes(data, 276, 32)),
            stake_address: Address::new(take_bytes(data, 308, 32)),
            liege_address: Address::new(take_bytes(data, 340, 32)),
            liege_vassal_index: *data.get(372).unwrap(),
            vassal_addresses: vassals,
        };
        proof {
            assert(t@.vassal_addresses =~= target);
            assert(t@ == spec_parse_title(data@).unwrap());
        }
        Ok(t)
    }
}

/// The concatenation of a sequence of 32-byte addresses.
pub open spec fn cat_addrs(vs: Seq<Seq<u8>>) -> Seq<u8>
    decreases vs.len(),
{
    if vs.len() == 0 {
        Seq::empty()
    } else {
        vs[0] + cat_addrs(vs.drop_first())
    }
}

/// Concatenating address images multiplies the length by 32.
pub proof fn lemma_cat_addrs_len(vs: Seq<Seq<u8>>)
    requires
        forall|i: int| 0 <= i < vs.len() ==> #[trigger] vs[i].len() == 32,
    ensures
        cat_addrs(vs).len() == 32 * vs.len(),
    decreases vs.len(),
{
    if vs.len() > 0 {
        lemma_cat_addrs_len(vs.drop_first());
    }
}

/// Extending a prefix by one element appends that element's image.
pub proof fn lemma_cat_addrs_take_succ(vs: Seq<Seq<u8>>, i: int)
    requires
        0 <= i < vs.len(),
    ensures
        cat_addrs(vs.take(i + 1)) == cat_addrs(vs.take(i)) + vs[i],
    decreases i,
{
    if i == 0 {
        assert(vs.take(1).len() == 1);
        assert(vs.take(1)[0] == vs[0]);
        assert(vs.take(0).len() == 0);
        assert(vs.take(1).drop_first() =~= Seq::<Seq<u8>>::empty());
        assert(cat_addrs(vs.take(1)) == vs.take(1)[0] + cat_addrs(vs.take(1).drop_first()));
        assert(cat_addrs(vs.take(1)) =~= cat_addrs(vs.take(0)) + vs[0]);
    } else {
        let tl = vs.drop_first();
        lemma_cat_addrs_take_succ(tl, i - 1);
        assert(vs.take(i + 1).drop_first() =~= tl.take(i));
        assert(vs.take(i).drop_first() =~= tl.take(i - 1));
        assert(cat_addrs(vs.take(i + 1)) == vs[0] + cat_addrs(tl.take(i)));
        assert(cat_addrs(vs.take(i)) == vs[0] + cat_addrs(tl.take(i - 1)));
        assert(cat_addrs(vs.take(i + 1)) =~= cat_addrs(vs.take(i)) + vs[i]);
    }
}

/// The image of the `k`-th address sits at offset `32 * k`.
pub proof fn lemma_cat_addrs_index(vs: Seq<Seq<u8>>, k: int)
    requires
        forall|i: int| 0 <= i < vs.len() ==> #[trigger] vs[i].len() == 32,
        0 <= k < vs.len(),
    ensures
        cat_addrs(vs).subrange(32 * k, 32 * k + 32) == vs[k],
    decreases k,
{
    lemma_cat_addrs_len(vs);
    if k == 0 {
        assert(cat_addrs(vs).subrange(0, 32) =~= vs[0]);
    } else {
        let tl = vs.drop_first();
        lemma_cat_addrs_index(tl, k - 1);
        lemma_cat_addrs_len(tl);
        assert(cat_addrs(vs).subrange(32 * k, 32 * k + 32) =~= cat_addrs(tl).subrange(
            32 * (k - 1),
            32 * (k - 1) + 32,
        ));
    }
}

/// The fixed 2425-byte image of a Title record.
pub open spec fn spec_title_bytes(t: TitleDataView) -> Seq<u8> {
    seq![t.version] + seq![t.lifecycle_state] + seq![t.rank] + seq![t.kind]
        + spec_u64_to_le_bytes(t.required_stake_lamports) + spec_u64_to_le_bytes(
        t.sale_price_lamports,
    ) + t.coat_of_arms + t.display_name + t.holder_house_address + t.stake_address
        + t.liege_address + seq![t.liege_vassal_index] + spec_u32_to_le_bytes(
        t.vassal_addresses.len() as u32,
    ) + cat_addrs(t.vassal_addresses) + Seq::new(
        (32 * (64 - t.vassal_addresses.len())) as nat,
        |i: int| 0u8,
    )
}

/// The Title record read back from a 2425-byte image; `None` if the image
/// has the wrong size or an impossible vassal count.
pub open spec fn spec_parse_title(s: Seq<u8>) -> Option<TitleDataView> {
    if s.len() == 2425 {
        let count = spec_u32_from_le_bytes(s.subrange(373, 377)) as int;
        if count <= 64 {
            Some(
                TitleDataView {
                    version: s[0],
                    lifecycle_state: s[1],
                    rank: s[2],
                    kind: s[3],
                    required_stake_lamports: spec_u64_from_le_bytes(s.subrange(4, 12)),
                    sale_price_lamports: spec_u64_from_le_bytes(s.subrange(12, 20)),
                    coat_of_arms: s.subrange(20, 148),
                    display_name: s.subrange(148, 276),
                    holder_house_address: s.subrange(276, 308),
                    stake_address: s.subrange(308, 340),
                    liege_address: s.subrange(340, 372),
                    liege_vassal_index: s[372],
                    vassal_addresses: Seq::new(
                        count as nat,
                        |i: int| s.subrange(377 + 32 * i, 377 + 32 * i + 32),
                    ),
                },
            )
        } else {
            None
        }
    } else {
        None
    }
}

/// Round trip: a well-formed Title record deserializes from its own
/// encoding, and the encoding has the declared maximum size whatever the
/// current vassal count is.
pub proof fn lemma_title_round_trip(t: TitleDataView)
    requires
        t.wf(),
    ensures
        spec_title_bytes(t).len() == TitleData::SIZE,
        spec_parse_title(spec_title_bytes(t)) == Some(t),
{
    lemma_auto_spec_u64_to_from_le_bytes();
    lemma_auto_spec_u32_to_from_le_bytes();
    lemma_cat_addrs_len(t.vassal_addresses);
    let s = spec_title_bytes(t);
    let n = t.vassal_addresses.len() as int;
    assert(s.len() == 2425);
    assert(s.subrange(4, 12) =~= spec_u64_to_le_bytes(t.required_stake_lamports));
    assert(s.subrange(12, 20) =~= spec_u64_to_le_bytes(t.sale_price_lamports));
    assert(s.subrange(20, 148) =~= t.coat_of_arms);
    assert(s.subrange(148, 276) =~= t.display_name);
    assert(s.subrange(276, 308) =~= t.holder_house_address);
    assert(s.subrange(308, 340) =~= t.stake_address);
    assert(s.subrange(340, 372) =~= t.liege_address);
    assert(s.subrange(373, 377) =~= spec_u32_to_le_bytes(t.vassal_addresses.len() as u32));
    let parsed = spec_parse_title(s).unwrap();
    assert forall|k: int| 0 <= k < n implies #[trigger] parsed.vassal_addresses[k]
        == t.vassal_addresses[k] by {
        lemma_cat_addrs_index(t.vassal_addresses, k);
        assert(s.subrange(377 + 32 * k, 377 + 32 * k + 32) =~= cat_addrs(
            t.vassal_addresses,
        ).subrange(32 * k, 32 * k + 32));
    }
    assert(parsed.vassal_addresses =~= t.vassal_addresses);
    assert(s[0] == t.version);
    assert(s[1] == t.lifecycle_state);
    assert(s[2] == t.rank);
    assert(s[3] == t.kind);
    assert(s[372] == t.liege_vassal_index);
}

/// `s` null-padded to the fixed text width.
pub open spec fn spec_pad128(s: Seq<u8>) -> Seq<u8> {
    s + Seq::new((128 - s.len()) as nat, |i: int| 0u8)
}

/// Null-pad a text to the fixed 128-byte field width.
pub fn pad128(s: &Vec<u8>) -> (r: Vec<u8>)
    requires
        s@.len() <= 128,
    ensures
        r@ == spec_pad128(s@),
        r@.len() == 128,
{
    let mut r = bytes_dup(s);
    let n = r.len();
    put_zeros(&mut r, 128 - n);
    r
}

/// Round trip: a well-formed House record deserializes from its own
/// encoding, and the encoding has the declared size whatever the field
/// values are.
pub proof fn lemma_house_round_trip(h: HouseDataView)
    requires
        h.wf(),
    ensures
        spec_house_bytes(h).len() == HouseData::SIZE,
        spec_parse_house(spec_house_bytes(h)) == Some(h),
{
    lemma_auto_spec_u16_to_from_le_bytes();
    lemma_auto_spec_i32_to_from_le_bytes();
    let s = spec_house_bytes(h);
    assert(s.subrange(0, 2) =~= spec_u16_to_le_bytes(h.version));
    assert(s.subrange(2, 4) =~= spec_u16_to_le_bytes(h.governance_token_supply));
    assert(s.subrange(4, 132) =~= h.coat_of_arms);
    assert(s.subrange(132, 260) =~= h.display_name);
    assert(s.subrange(260, 264) =~= spec_i32_to_le_bytes(h.prestige));
    assert(s.subrange(264, 268) =~= spec_i32_to_le_bytes(h.virtue));
}

} // verus!
