//! Instructions supported by the registry, their wire format, and helpers
//! that assemble complete instructions for a client to submit.
//!
//! The wire format is a tagged union: a one-byte variant discriminant
//! followed by the fields in declared order. Text fields travel
//! length-prefixed and are bounded at 128 encoded bytes; addresses travel
//! as 32 raw bytes.

use vstd::prelude::*;
use vstd::bytes::{
    spec_u32_to_le_bytes, spec_u32_from_le_bytes, lemma_auto_spec_u32_to_from_le_bytes,
    spec_u64_to_le_bytes, spec_u64_from_le_bytes, lemma_auto_spec_u64_to_from_le_bytes,
};
use crate::addr::{Address, zero_address, bytes_dup};
use crate::bytes::{put_u8, put_u32, put_u64, put_bytes, take_bytes, get_u32, get_u64};
use crate::error::TitleError;

verus! {

/// Instructions supported by the registry.
#[derive(Debug)]
pub enum TitleInstruction {
    /// Create a new House record.
    ///
    /// Accounts expected, in order: the creator's wallet (writable,
    /// signer), the new House account (writable), the system allocator.
    CreateHouse {
        /// Encoded coat of arms URI, at most 128 bytes.
        coat_of_arms: Vec<u8>,
        /// Encoded display name, at most 128 bytes.
        display_name: Vec<u8>,
    },
    /// Create a new Title record.
    ///
    /// Accounts expected, in order: the creator's wallet (writable,
    /// signer), the creator's House account, the new Title account
    /// (writable), the liege Title account (writable), the system
    /// allocator.
    CreateTitle {
        /// See `TitleData::rank`.
        rank: u8,
        /// See `TitleData::kind`.
        kind: u8,
        /// Required stake for the holder; also the initial sale price.
        required_stake_lamports: u64,
        /// Encoded coat of arms URI, at most 128 bytes.
        coat_of_arms: Vec<u8>,
        /// Encoded display name, at most 128 bytes.
        display_name: Vec<u8>,
        /// Address of the liege title. All zeroes for a root title.
        liege_address: Address,
        /// Index of the title into the liege's vassal list.
        liege_vassal_index: u8,
    },
}

/// The mathematical image of an instruction.
pub enum TitleInstructionView {
    CreateHouse { coat_of_arms: Seq<u8>, display_name: Seq<u8> },
    CreateTitle {
        rank: u8,
        kind: u8,
        required_stake_lamports: u64,
        coat_of_arms: Seq<u8>,
        display_name: Seq<u8>,
        liege_address: Seq<u8>,
        liege_vassal_index: u8,
    },
}

impl View for TitleInstruction {
    type V = TitleInstructionView;

    open spec fn view(&self) -> TitleInstructionView {
        match self {
            TitleInstruction::CreateHouse { coat_of_arms, display_name } => (
            TitleInstructionView::CreateHouse {
                coat_of_arms: coat_of_arms@,
                display_name: display_name@,
            }),
            TitleInstruction::CreateTitle {
                rank,
                kind,
                required_stake_lamports,
                coat_of_arms,
                display_name,
                liege_address,
                liege_vassal_index,
            } => (TitleInstructionView::CreateTitle {
                rank: *rank,
                kind: *kind,
                required_stake_lamports: *required_stake_lamports,
                coat_of_arms: coat_of_arms@,
                display_name: display_name@,
                liege_address: liege_address@,
                liege_vassal_index: *liege_vassal_index,
            }),
        }
    }
}

impl TitleInstructionView {
    /// Well-formed: bounded text and a full-width liege address.
    pub open spec fn wf(&self) -> bool {
        match *self {
            TitleInstructionView::CreateHouse { coat_of_arms, display_name } => {
                &&& coat_of_arms.len() <= 128
                &&& display_name.len() <= 128
            },
            TitleInstructionView::CreateTitle {
                coat_of_arms, display_name, liege_address, ..
            } => {
                &&& coat_of_arms.len() <= 128
                &&& display_name.len() <= 128
                &&& liege_address.len() == 32
            },
        }
    }
}

/// A length-prefixed text field on the wire.
pub open spec fn spec_text_bytes(t: Seq<u8>) -> Seq<u8> {
    spec_u32_to_le_bytes(t.len() as u32) + t
}

/// The wire image of an instruction.
pub open spec fn spec_instruction_bytes(i: TitleInstructionView) -> Seq<u8> {
    match i {
        TitleInstructionView::CreateHouse { coat_of_arms, display_name } => seq![0u8]
            + spec_text_bytes(coat_of_arms) + spec_text_bytes(display_name),
        TitleInstructionView::CreateTitle {
            rank,
            kind,
            required_stake_lamports,
            coat_of_arms,
            display_name,
            liege_address,
            liege_vassal_index,
        } => seq![1u8] + seq![rank] + seq![kind] + spec_u64_to_le_bytes(required_stake_lamports)
            + spec_text_bytes(coat_of_arms) + spec_text_bytes(display_name) + liege_address
            + seq![liege_vassal_index],
    }
}

/// A text field read at offset `off`: the field's bytes and the offset
/// just past it. `None` if the prefix is truncated, over the bound, or
/// runs past the end.
pub open spec fn spec_parse_text_at(s: Seq<u8>, off: int) -> Option<(Seq<u8>, int)> {
    if 0 <= off && off + 4 <= s.len() {
        let n = spec_u32_from_le_bytes(s.subrange(off, off + 4)) as int;
        if n <= 128 && off + 4 + n <= s.len() {
            Some((s.subrange(off + 4, off + 4 + n), off + 4 + n))
        } else {
            None
        }
    } else {
        None
    }
}

/// The instruction read back from its wire image; `None` for anything
/// malformed, including trailing bytes.
pub open spec fn spec_parse_instruction(s: Seq<u8>) -> Option<TitleInstructionView> {
    if s.len() < 1 {
        None
    } else if s[0] == 0 {
        match spec_parse_text_at(s, 1) {
            Some((coat_of_arms, o1)) => match spec_parse_text_at(s, o1) {
                Some((display_name, o2)) => if o2 == s.len() {
                    Some(TitleInstructionView::CreateHouse { coat_of_arms, display_name })
                } else {
                    None
                },
                None => None,
            },
            None => None,
        }
    } else if s[0] == 1 {
        if s.len() < 11 {
            None
        } else {
            match spec_parse_text_at(s, 11) {
                Some((coat_of_arms, o1)) => match spec_parse_text_at(s, o1) {
                    Some((display_name, o2)) => if o2 + 33 == s.len() {
                        Some(
                            TitleInstructionView::CreateTitle {
                                rank: s[1],
                                kind: s[2],
                                required_stake_lamports: spec_u64_from_le_bytes(s.subrange(3, 11)),
                                coat_of_arms,
                                display_name,
                                liege_address: s.subrange(o2, o2 + 32),
                                liege_vassal_index: s[o2 + 32],
                            },
                        )
                    } else {
                        None
                    },
                    None => None,
                },
                None => None,
            }
        }
    } else {
        None
    }
}

/// Append a length-prefixed text field.
fn put_text(out: &mut Vec<u8>, t: &Vec<u8>)
    requires
        t@.len() <= 128,
    ensures
        final(out)@ == old(out)@ + spec_text_bytes(t@),
{
    put_u32(out, t.len() as u32);
    put_bytes(out, t);
    proof {
        assert(out@ =~= old(out)@ + spec_text_bytes(t@));
    }
}

/// Read a length-prefixed text field at `off`.
fn parse_text_at(s: &Vec<u8>, off: usize) -> (r: Result<(Vec<u8>, usize), TitleError>)
    ensures
        match spec_parse_text_at(s@, off as int) {
            Some(p) => {
                &&& r matches Ok(t) && t.0@ == p.0 && t.1 == p.1
                &&& p.0.len() <= 128
                &&& off + 4 <= p.1 <= s@.len()
            },
            None => r == Err::<(Vec<u8>, usize), TitleError>(TitleError::DeserializationFailure),
        },
{
    if off > s.len() || s.len() - off < 4 {
        return Err(TitleError::DeserializationFailure);
    }
    let n32 = get_u32(s, off);
    if n32 > 128 {
        return Err(TitleError::DeserializationFailure);
    }
    let n = n32 as usize;
    if s.len() - (off + 4) < n {
        return Err(TitleError::DeserializationFailure);
    }
    Ok((take_bytes(s, off + 4, n), off + 4 + n))
}

impl TitleInstruction {
    /// Well-formed: see [`TitleInstructionView::wf`].
    pub open spec fn wf(&self) -> bool {
        self@.wf()
    }

    /// Encode this instruction into its wire format.
    pub fn encode(&self) -> (out: Vec<u8>)
        requires
            self.wf(),
        ensures
            out@ == spec_instruction_bytes(self@),
    {
        let mut out: Vec<u8> = Vec::new();
        match self {
            TitleInstruction::CreateHouse { coat_of_arms, display_name } => {
                put_u8(&mut out, 0);
                put_text(&mut out, coat_of_arms);
                put_text(&mut out, display_name);
            },
            TitleInstruction::CreateTitle {
                rank,
                kind,
                required_stake_lamports,
                coat_of_arms,
                display_name,
                liege_address,
                liege_vassal_index,
            } => {
                put_u8(&mut out, 1);
                put_u8(&mut out, *rank);
                put_u8(&mut out, *kind);
                put_u64(&mut out, *required_stake_lamports);
                put_text(&mut out, coat_of_arms);
                put_text(&mut out, display_name);
                put_bytes(&mut out, &liege_address.bytes);
                put_u8(&mut out, *liege_vassal_index);
            },
        }
        proof {
            assert(out@ =~= spec_instruction_bytes(self@));
        }
        out
    }

    /// Decode an instruction from its wire format.
    pub fn decode(data: &Vec<u8>) -> (r: Result<TitleInstruction, TitleError>)
        ensures
            match spec_parse_instruction(data@) {
                Some(v) => r matches Ok(i) && i@ == v && i.wf(),
                None => r == Err::<TitleInstruction, TitleError>(
                    TitleError::DeserializationFailure,
                ),
            },
    {
        if data.len() < 1 {
            return Err(TitleError::DeserializationFailure);
        }
        let tag = *data.get(0).unwrap();
        if tag == 0 {
            let (coat_of_arms, o1) = match parse_text_at(data, 1) {
                Ok(p) => p,
                Err(e) => { return Err(e); },
            };
            let (display_name, o2) = match parse_text_at(data, o1) {
                Ok(p) => p,
                Err(e) => { return Err(e); },
            };
            if o2 != data.len() {
                return Err(TitleError::DeserializationFailure);
            }
            Ok(TitleInstruction::CreateHouse { coat_of_arms, display_name })
        } else if tag == 1 {
            if data.len() < 11 {
                return Err(TitleError::DeserializationFailure);
            }
            let (coat_of_arms, o1) = match parse_text_at(data, 11) {
                Ok(p) => p,
                Err(e) => { return Err(e); },
            };
            let (display_name, o2) = match parse_text_at(data, o1) {
                Ok(p) => p,
                Err(e) => { return Err(e); },
            };
            if data.len() - o2 != 33 {
                return Err(TitleError::DeserializationFailure);
            }
            Ok(
                TitleInstruction::CreateTitle {
                    rank: *data.get(1).unwrap(),
                    kind: *data.get(2).unwrap(),
                    required_stake_lamports: get_u64(data, 3),
                    coat_of_arms,
                    display_name,
                    liege_address: Address::new(take_bytes(data, o2, 32)),
                    liege_vassal_index: *data.get(o2 + 32).unwrap(),
                },
            )
        } else {
            Err(TitleError::DeserializationFailure)
        }
    }
}

/// Round trip: a well-formed instruction decodes from its own encoding.
pub proof fn lemma_instruction_round_trip(i: TitleInstructionView)
    requires
        i.wf(),
    ensures
        spec_parse_instruction(spec_instruction_bytes(i)) == Some(i),
{
    lemma_auto_spec_u32_to_from_le_bytes();
    lemma_auto_spec_u64_to_from_le_bytes();
    let s = spec_instruction_bytes(i);
    match i {
        TitleInstructionView::CreateHouse { coat_of_arms, display_name } => {
            let o1 = 5 + coat_of_arms.len() as int;
            let o2 = o1 + 4 + display_name.len() as int;
            assert(s.subrange(1, 5) =~= spec_u32_to_le_bytes(coat_of_arms.len() as u32));
            assert(s.subrange(5, o1) =~= coat_of_arms);
            assert(spec_parse_text_at(s, 1) == Some((coat_of_arms, o1)));
            assert(s.subrange(o1, o1 + 4) =~= spec_u32_to_le_bytes(display_name.len() as u32));
            assert(s.subrange(o1 + 4, o2) =~= display_name);
            assert(spec_parse_text_at(s, o1) == Some((display_name, o2)));
            assert(o2 == s.len());
        },
        TitleInstructionView::CreateTitle {
            rank,
            kind,
            required_stake_lamports,
            coat_of_arms,
            display_name,
            liege_address,
            liege_vassal_index,
        } => {
            let o1 = 15 + coat_of_arms.len() as int;
            let o2 = o1 + 4 + display_name.len() as int;
            assert(s[0] == 1u8);
            assert(s[1] == rank);
            assert(s[2] == kind);
            assert(s.subrange(3, 11) =~= spec_u64_to_le_bytes(required_stake_lamports));
            assert(s.subrange(11, 15) =~= spec_u32_to_le_bytes(coat_of_arms.len() as u32));
            assert(s.subrange(15, o1) =~= coat_of_arms);
            assert(spec_parse_text_at(s, 11) == Some((coat_of_arms, o1)));
            assert(s.subrange(o1, o1 + 4) =~= spec_u32_to_le_bytes(display_name.len() as u32));
            assert(s.subrange(o1 + 4, o2) =~= display_name);
            assert(spec_parse_text_at(s, o1) == Some((display_name, o2)));
            assert(o2 + 33 == s.len());
            assert(s.subrange(o2, o2 + 32) =~= liege_address);
            assert(s[o2 + 32] == liege_vassal_index);
        },
    }
}

/// One account named by an instruction, with its required access.
#[derive(Debug)]
pub struct AccountMeta {
    /// The account's address.
    pub address: Address,
    /// Whether the account must sign the transaction.
    pub is_signer: bool,
    /// Whether the account is written.
    pub is_writable: bool,
}

/// The mathematical image of an account reference.
pub struct AccountMetaView {
    pub address: Seq<u8>,
    pub is_signer: bool,
    pub is_writable: bool,
}

impl View for AccountMeta {
    type V = AccountMetaView;

    open spec fn view(&self) -> AccountMetaView {
        AccountMetaView {
            address: self.address@,
            is_signer: self.is_signer,
            is_writable: self.is_writable,
        }
    }
}

/// A complete instruction ready to submit: the program to route it to,
/// the accounts it touches in positional order, and the encoded data.
#[derive(Debug)]
pub struct Instruction {
    /// The registry program's identity.
    pub program_id: Address,
    /// The accounts, in the exact positional order the processor expects.
    pub accounts: Vec<AccountMeta>,
    /// The encoded instruction data.
    pub data: Vec<u8>,
}

/// Create a new CreateHouse instruction.
pub fn create_house(
    user_wallet_address: &Address,
    house_address: &Address,
    coat_of_arms: &Vec<u8>,
    display_name: &Vec<u8>,
    noble_program_id: &Address,
) -> (r: Instruction)
    requires
        coat_of_arms@.len() <= 128,
        display_name@.len() <= 128,
    ensures
        r.program_id@ == noble_program_id@,
        r.accounts@.len() == 3,
        r.accounts@[0]@ == (AccountMetaView {
            address: user_wallet_address@,
            is_signer: true,
            is_writable: true,
        }),
        r.accounts@[1]@ == (AccountMetaView {
            address: house_address@,
            is_signer: false,
            is_writable: true,
        }),
        r.accounts@[2]@ == (AccountMetaView {
            address: zero_address(),
            is_signer: false,
            is_writable: false,
        }),
        r.data@ == spec_instruction_bytes(
            TitleInstructionView::CreateHouse {
                coat_of_arms: coat_of_arms@,
                display_name: display_name@,
            },
        ),
{
    let insn = TitleInstruction::CreateHouse {
        coat_of_arms: bytes_dup(coat_of_arms),
        display_name: bytes_dup(display_name),
    };
    let data = insn.encode();
    let mut accounts: Vec<AccountMeta> = Vec::new();
    accounts.push(
        AccountMeta { address: user_wallet_address.dup(), is_signer: true, is_writable: true },
    );
    accounts.push(AccountMeta { address: house_address.dup(), is_signer: false, is_writable: true });
    accounts.push(AccountMeta { address: Address::zero(), is_signer: false, is_writable: false });
    Instruction { program_id: noble_program_id.dup(), accounts, data }
}

/// Create a new CreateTitle instruction.
pub fn create_title(
    user_wallet_address: &Address,
    house_address: &Address,
    new_title_address: &Address,
    liege_address: &Address,
    rank: u8,
    kind: u8,
    required_stake_lamports: u64,
    liege_vassal_index: u8,
    coat_of_arms: &Vec<u8>,
    display_name: &Vec<u8>,
    noble_program_id: &Address,
) -> (r: Instruction)
    requires
        liege_address.wf(),
        coat_of_arms@.len() <= 128,
        display_name@.len() <= 128,
    ensures
        r.program_id@ == noble_program_id@,
        r.accounts@.len() == 5,
        r.accounts@[0]@ == (AccountMetaView {
            address: user_wallet_address@,
            is_signer: true,
            is_writable: true,
        }),
        r.accounts@[1]@ == (AccountMetaView {
            address: house_address@,
            is_signer: false,
            is_writable: true,
        }),
        r.accounts@[2]@ == (AccountMetaView {
            address: new_title_address@,
            is_signer: false,
            is_writable: true,
        }),
        r.accounts@[3]@ == (AccountMetaView {
            address: liege_address@,
            is_signer: false,
            is_writable: true,
        }),
        r.accounts@[4]@ == (AccountMetaView {
            address: zero_address(),
            is_signer: false,
            is_writable: false,
        }),
        r.data@ == spec_instruction_bytes(
            TitleInstructionView::CreateTitle {
                rank,
                kind,
                required_stake_lamports,
                coat_of_arms: coat_of_arms@,
                display_name: display_name@,
                liege_address: liege_address@,
                liege_vassal_index,
            },
        ),
{
    let insn = TitleInstruction::CreateTitle {
        rank,
        kind,
        required_stake_lamports,
        coat_of_arms: bytes_dup(coat_of_arms),
        display_name: bytes_dup(display_name),
        liege_address: liege_address.dup(),
        liege_vassal_index,
    };
    let data = insn.encode();
    let mut accounts: Vec<AccountMeta> = Vec::new();
    accounts.push(
        AccountMeta { address: user_wallet_address.dup(), is_signer: true, is_writable: true },
    );
    accounts.push(AccountMeta { address: house_address.dup(), is_signer: false, is_writable: true });
    accounts.push(
        AccountMeta { address: new_title_address.dup(), is_signer: false, is_writable: true },
    );
    accounts.push(AccountMeta { address: liege_address.dup(), is_signer: false, is_writable: true });
    accounts.push(AccountMeta { address: Address::zero(), is_signer: false, is_writable: false });
    Instruction { program_id: noble_program_id.dup(), accounts, data }
}

} // verus!
