use vstd::prelude::*;

verus! {

/// The unsigned value of bytes read least significant first.
pub open spec fn le_value(b: Seq<u8>) -> nat
    decreases b.len(),
{
    if b.len() == 0 {
        0
    } else {
        b[0] as nat + 256 * le_value(b.drop_first())
    }
}

/// Relies on u64::from_le_bytes: the integer whose little-endian bytes are
/// `b`.
#[verifier::external_body]
fn u64_from_le_bytes(b: [u8; 8]) -> (r: u64)
    ensures
        r as nat == le_value(b@),
{
    u64::from_le_bytes(b)
}

/// The operations of the protocol, each with its one-byte tag.
#[derive(Clone, Copy, Debug, PartialEq, Eq, Structural)]
pub enum OreInstruction {
    Claim,
    Close,
    Mine,
    Open,
    Reset,
    Stake,
    Update,
    Upgrade,
    Initialize,
}

pub open spec fn tag_of(i: OreInstruction) -> u8 {
    match i {
        OreInstruction::Claim => 0,
        OreInstruction::Close => 1,
        OreInstruction::Mine => 2,
        OreInstruction::Open => 3,
        OreInstruction::Reset => 4,
        OreInstruction::Stake => 5,
        OreInstruction::Update => 6,
        OreInstruction::Upgrade => 7,
        OreInstruction::Initialize => 100,
    }
}

impl OreInstruction {
    /// The tag byte of the operation.
    pub fn tag(&self) -> (r: u8)
        ensures
            r == tag_of(*self),
    {
        match self {
            OreInstruction::Claim => 0,
            OreInstruction::Close => 1,
            OreInstruction::Mine => 2,
            OreInstruction::Open => 3,
            OreInstruction::Reset => 4,
            OreInstruction::Stake => 5,
            OreInstruction::Update => 6,
            OreInstruction::Upgrade => 7,
            OreInstruction::Initialize => 100,
        }
    }

    /// The operation with the given tag, if there is one.
    pub fn from_tag(tag: u8) -> (r: Option<OreInstruction>)
        ensures
            r is Some <==> (tag <= 7 || tag == 100),
            r is Some ==> tag_of(r->Some_0) == tag,
    {
        match tag {
            0 => Some(OreInstruction::Claim),
            1 => Some(OreInstruction::Close),
            2 => Some(OreInstruction::Mine),
            3 => Some(OreInstruction::Open),
            4 => Some(OreInstruction::Reset),
            5 => Some(OreInstruction::Stake),
            6 => Some(OreInstruction::Update),
            7 => Some(OreInstruction::Upgrade),
            100 => Some(OreInstruction::Initialize),
            _ => None,
        }
    }
}

/// Arguments of a claim: the amount, little-endian.
#[derive(Clone, Copy, Debug)]
pub struct Claim {
    pub amount: [u8; 8],
}

impl Claim {
    pub fn amount(&self) -> (r: u64)
        ensures
            r as nat == le_value(self.amount@),
    {
        u64_from_le_bytes(self.amount)
    }
}

/// Arguments of a close: none.
#[derive(Clone, Copy, Debug)]
pub struct Close {}

/// Arguments of a mine: the solution's digest and nonce.
#[derive(Clone, Copy, Debug)]
pub struct Mine {
    pub digest: [u8; 16],
    pub nonce: [u8; 8],
}

/// Arguments of an open: the bump of the proof's derived address.
#[derive(Clone, Copy, Debug)]
pub struct Open {
    pub proof_bump: u8,
}

/// Arguments of a reset: none.
#[derive(Clone, Copy, Debug)]
pub struct Reset {}

/// Arguments of a stake: the amount, little-endian.
#[derive(Clone, Copy, Debug)]
pub struct Stake {
    pub amount: [u8; 8],
}

impl Stake {
    pub fn amount(&self) -> (r: u64)
        ensures
            r as nat == le_value(self.amount@),
    {
        u64_from_le_bytes(self.amount)
    }
}

/// Arguments of an update: none.
#[derive(Clone, Copy, Debug)]
pub struct Update {}

/// Arguments of an upgrade: the amount, little-endian.
#[derive(Clone, Copy, Debug)]
pub struct Upgrade {
    pub amount: [u8; 8],
}

impl Upgrade {
    pub fn amount(&self) -> (r: u64)
        ensures
            r as nat == le_value(self.amount@),
    {
        u64_from_le_bytes(self.amount)
    }
}

/// Arguments of the bootstrap: bumps, mint noise, and metadata text.
#[derive(Clone, Copy, Debug)]
pub struct Initialize {
    pub treasury_bump: u8,
    pub mint_bump: u8,
    pub mint_noise: [u8; 16],
    pub metadata_name: [u8; 32],
    pub metadata_symbol: [u8; 8],
    pub metadata_uri: [u8; 128],
}

} // verus!
