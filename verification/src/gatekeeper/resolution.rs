//! The extra accounts that the ledger must hand to the transfer check: the
//! blacklist markers of the two owners, each found from the transfer's own
//! accounts.

use crate::address::Address;
use crate::gatekeeper::errors::GatekeeperError;
use anchor_lang::prelude::ProgramError;
use spl_tlv_account_resolution::account::ExtraAccountMeta;
use spl_tlv_account_resolution::seeds::Seed;
use spl_tlv_account_resolution::state::ExtraAccountMetaList;
use vstd::prelude::*;
use vstd::string::StrSliceExecFns;
use vstd::string::StringSliceAdditionalSpecFns;

verus! {

/// Where one seed of a derived address comes from.
#[derive(Clone, Debug, PartialEq, Eq)]
pub enum SeedConfig {
    /// Fixed bytes.
    Literal { bytes: Vec<u8> },
    /// The address of the account at `index` in the transfer's account list.
    AccountKey { index: u8 },
    /// `length` bytes at `data_index` in the data of the account at
    /// `account_index`.
    AccountData { account_index: u8, data_index: u8, length: u8 },
}

/// One extra account of the transfer check, derived from seeds.
#[derive(Clone, Copy, Debug, PartialEq, Eq)]
pub struct ExtraAccount {
    /// 1 for an address derived from seeds under the gatekeeper itself.
    pub discriminator: u8,
    /// The packed seeds, padded with zeros.
    pub address_config: [u8; 32],
    pub is_signer: bool,
    pub is_writable: bool,
}

/// The list of extra accounts, and the size of the account that stores it.
#[derive(Clone, Debug, PartialEq, Eq)]
pub struct ExtraAccountList {
    pub account_size: u64,
    pub accounts: Vec<ExtraAccount>,
}

/// The accounts of `initialize_extra_account_meta_list`.
#[derive(Clone, Debug, PartialEq, Eq)]
pub struct InitializeExtraAccountMetaList {
    pub payer: Address,
    /// Where the list goes: empty before, the list after.
    pub extra_account_meta_list: Option<ExtraAccountList>,
    pub mint: Address,
}

/// The packed form of one seed: its kind, then its parameters.
pub open spec fn packed_seed(seed: SeedConfig) -> Seq<u8> {
    match seed {
        SeedConfig::Literal { bytes } => seq![1u8, bytes@.len() as u8] + bytes@,
        SeedConfig::AccountKey { index } => seq![3u8, index],
        SeedConfig::AccountData { account_index, data_index, length } => seq![
            4u8,
            account_index,
            data_index,
            length,
        ],
    }
}

/// The packed forms of the seeds, one after the other.
pub open spec fn packed_seeds(seeds: Seq<SeedConfig>) -> Seq<u8>
    decreases seeds.len(),
{
    if seeds.len() == 0 {
        Seq::<u8>::empty()
    } else {
        packed_seeds(seeds.drop_last()) + packed_seed(seeds.last())
    }
}

/// Whether a seed can be packed at all: a literal is shorter than 254 bytes.
pub open spec fn packable(seed: SeedConfig) -> bool {
    match seed {
        SeedConfig::Literal { bytes } => bytes@.len() <= 253,
        _ => true,
    }
}

/// The 32 bytes that hold the packed seeds, where they fit.
pub open spec fn address_config_of(seeds: Seq<SeedConfig>) -> Seq<u8> {
    packed_seeds(seeds) + Seq::new((32 - packed_seeds(seeds).len()) as nat, |i: int| 0u8)
}

/// Describes an extra account whose address the seeds derive under the
/// gatekeeper.
///
/// Trusted: calls `ExtraAccountMeta::new_with_seeds`. It packs each seed as
/// its kind byte (1 for a literal, 3 for an account's address, 4 for account
/// data) followed by its parameters, a literal's being its length and its
/// bytes; it fails exactly where the packed seeds exceed 32 bytes, and
/// otherwise pads them with zeros. A literal of 254 bytes or more is not
/// admitted, as the packing miscounts its length.
#[verifier::external_body]
pub(crate) fn new_with_seeds(seeds: &Vec<SeedConfig>, is_signer: bool, is_writable: bool) -> (r:
    Result<ExtraAccount, ProgramError>)
    requires
        forall|i: int| 0 <= i < seeds@.len() ==> packable(#[trigger] seeds@[i]),
    ensures
        r is Ok == (packed_seeds(seeds@).len() <= 32),
        r is Ok ==> r->Ok_0.discriminator == 1 && r->Ok_0.address_config@ == address_config_of(
            seeds@,
        ) && r->Ok_0.is_signer == is_signer && r->Ok_0.is_writable == is_writable,
{
    let seeds: Vec<Seed> = seeds.iter().map(|seed| match seed {
        SeedConfig::Literal { bytes } => Seed::Literal { bytes: bytes.clone() },
        SeedConfig::AccountKey { index } => Seed::AccountKey { index: *index },
        SeedConfig::AccountData { account_index: a, data_index: d, length: l } =>
            Seed::AccountData { account_index: *a, data_index: *d, length: *l },
    }).collect();
    let meta = ExtraAccountMeta::new_with_seeds(&seeds, is_signer, is_writable)?;
    Ok(ExtraAccount {
        discriminator: meta.discriminator,
        address_config: meta.address_config,
        is_signer: meta.is_signer.into(),
        is_writable: meta.is_writable.into(),
    })
}

/// The size of the account that stores a list of `num_items` extra
/// accounts.
///
/// Trusted: calls `ExtraAccountMetaList::size_of`. An entry takes 35 bytes,
/// the list's length 4, and the header before them 12; the call fails where
/// entries and length overflow, and stops at the largest size where only the
/// header does.
#[verifier::external_body]
pub(crate) fn list_size_of(num_items: usize) -> (r: Result<usize, ProgramError>)
    ensures
        r is Ok == (35 * num_items + 4 <= usize::MAX),
        r is Ok ==> r->Ok_0 == if 35 * num_items + 16 <= usize::MAX {
            35 * num_items + 16
        } else {
            usize::MAX as int
        },
{
    ExtraAccountMetaList::size_of(num_items)
}

/// The tag under which blacklist markers are derived.
pub open spec fn blacklist_tag() -> Seq<u8> {
    "blacklist".spec_bytes()
}

/// The seeds of the marker of the owner of the source account: the tag, and
/// the address of the fourth account of a transfer, which is the source's
/// owner.
pub open spec fn source_marker_seeds(tag: Vec<u8>) -> Seq<SeedConfig> {
    seq![SeedConfig::Literal { bytes: tag }, SeedConfig::AccountKey { index: 3 }]
}

/// The seeds of the marker of the owner of the destination account: the
/// tag, and the 32 bytes at offset 32 of the third account of a transfer,
/// which is where the destination account names its owner.
pub open spec fn destination_marker_seeds(tag: Vec<u8>) -> Seq<SeedConfig> {
    seq![
        SeedConfig::Literal { bytes: tag },
        SeedConfig::AccountData { account_index: 2, data_index: 32, length: 32 },
    ]
}

/// Whether `list` is the gatekeeper's list of extra accounts: after the
/// five accounts of a transfer come the marker of the source's owner and
/// then the marker of the destination's owner, neither signing nor
/// writable, in an account of 86 bytes.
pub open spec fn is_marker_list(list: ExtraAccountList) -> bool {
    &&& list.account_size == 86
    &&& list.accounts@.len() == 2
    &&& list.accounts@[0].discriminator == 1
    &&& list.accounts@[0].address_config@ == seq![1u8, 9u8] + blacklist_tag() + seq![3u8, 3u8]
        + Seq::new(19, |i: int| 0u8)
    &&& !list.accounts@[0].is_signer
    &&& !list.accounts@[0].is_writable
    &&& list.accounts@[1].discriminator == 1
    &&& list.accounts@[1].address_config@ == seq![1u8, 9u8] + blacklist_tag() + seq![
        4u8,
        2u8,
        32u8,
        32u8,
    ] + Seq::new(17, |i: int| 0u8)
    &&& !list.accounts@[1].is_signer
    &&& !list.accounts@[1].is_writable
}

proof fn lemma_tag_length()
    ensures
        blacklist_tag().len() == 9,
{
    reveal_strlit("blacklist");
    vstd::string::is_ascii_spec_bytes("blacklist");
    assert("blacklist".is_ascii()) by {
        reveal_strlit("blacklist");
        vstd::utf8::is_ascii_chars_nat_bound("blacklist"@);
    }
}

/// Writes the gatekeeper's list of extra accounts. It is written once:
/// where a list exists, the operation is refused and changes nothing.
pub fn initialize_extra_account_meta_list(ctx: &mut InitializeExtraAccountMetaList) -> (r: Result<
    (),
    GatekeeperError,
>)
    ensures
        old(ctx).extra_account_meta_list is None ==> r == Ok::<(), GatekeeperError>(()) && final(ctx).payer == old(ctx).payer
            && final(ctx).mint == old(ctx).mint && final(ctx).extra_account_meta_list is Some
            && is_marker_list(final(ctx).extra_account_meta_list->Some_0),
        old(ctx).extra_account_meta_list is Some ==> r == Err::<(), GatekeeperError>(
            GatekeeperError::Unauthorized,
        ) && *final(ctx) == *old(ctx),
{
    if ctx.extra_account_meta_list.is_some() {
        return Err(GatekeeperError::Unauthorized);
    }
    proof {
        lemma_tag_length();
    }
    let mut source_seeds: Vec<SeedConfig> = Vec::new();
    source_seeds.push(SeedConfig::Literal { bytes: "blacklist".as_bytes_vec() });
    source_seeds.push(SeedConfig::AccountKey { index: 3 });
    let mut destination_seeds: Vec<SeedConfig> = Vec::new();
    destination_seeds.push(SeedConfig::Literal { bytes: "blacklist".as_bytes_vec() });
    destination_seeds.push(
        SeedConfig::AccountData { account_index: 2, data_index: 32, length: 32 },
    );
    proof {
        lemma_packed_pair(source_seeds@);
        lemma_packed_pair(destination_seeds@);
    }
    let source = match new_with_seeds(&source_seeds, false, false) {
        Ok(account) => account,
        Err(_) => {
            return Err(GatekeeperError::InvalidInstructionData);
        },
    };
    let destination = match new_with_seeds(&destination_seeds, false, false) {
        Ok(account) => account,
        Err(_) => {
            return Err(GatekeeperError::InvalidInstructionData);
        },
    };
    let mut accounts: Vec<ExtraAccount> = Vec::new();
    accounts.push(source);
    accounts.push(destination);
    let account_size = match list_size_of(accounts.len()) {
        Ok(size) => size as u64,
        Err(_) => {
            return Err(GatekeeperError::InvalidInstructionData);
        },
    };
    assert(source.address_config@ =~= seq![1u8, 9u8] + blacklist_tag() + seq![3u8, 3u8]
        + Seq::new(19, |i: int| 0u8));
    assert(destination.address_config@ =~= seq![1u8, 9u8] + blacklist_tag() + seq![
        4u8,
        2u8,
        32u8,
        32u8,
    ] + Seq::new(17, |i: int| 0u8));
    ctx.extra_account_meta_list = Some(ExtraAccountList { account_size, accounts });
    Ok(())
}

/// The packed form of two seeds is that of the first, then that of the second.
proof fn lemma_packed_pair(seeds: Seq<SeedConfig>)
    requires
        seeds.len() == 2,
    ensures
        packed_seeds(seeds) == packed_seed(seeds[0]) + packed_seed(seeds[1]),
{
    let first = seeds.drop_last();
    assert(first.drop_last().len() == 0);
    assert(packed_seeds(first) == packed_seeds(first.drop_last()) + packed_seed(first.last()));
    assert(packed_seeds(first.drop_last()) == Seq::<u8>::empty());
    assert(packed_seeds(first) =~= packed_seed(seeds[0]));
}

} // verus!
