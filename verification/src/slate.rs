//! The slate: a transaction in progress, and the states it moves through.

use vstd::prelude::*;

verus! {

/// Protocol state of a slate.
///
/// A standard (payment) negotiation runs `Standard1`, `Standard2`,
/// `Standard3`; an invoice runs `Invoice1`, `Invoice2`, `Invoice3`.
/// `Unknown` precedes both.
#[derive(Clone, Copy, Debug, PartialEq, Eq, Structural)]
pub enum SlateState {
    Unknown,
    Standard1,
    Standard2,
    Standard3,
    Invoice1,
    Invoice2,
    Invoice3,
}

/// The side of a negotiation that a party is on.
#[derive(Clone, Copy, Debug, PartialEq, Eq, Structural)]
pub enum Role {
    /// Gives the amount away: its balance goes down.
    Payer,
    /// Receives the amount: its balance goes up.
    Payee,
}

impl SlateState {
    /// How many rounds of its flow the slate has been through: 0 for
    /// `Unknown`, then 1, 2, 3.
    pub open spec fn spec_round(self) -> nat {
        match self {
            SlateState::Unknown => 0,
            SlateState::Standard1 | SlateState::Invoice1 => 1,
            SlateState::Standard2 | SlateState::Invoice2 => 2,
            SlateState::Standard3 | SlateState::Invoice3 => 3,
        }
    }

    /// True for the three states of the invoice flow.
    pub open spec fn spec_is_invoice(self) -> bool {
        self is Invoice1 || self is Invoice2 || self is Invoice3
    }

    /// A terminal state: the slate is finalized and takes no more signatures.
    pub open spec fn spec_is_terminal(self) -> bool {
        self is Standard3 || self is Invoice3
    }

    /// `self` comes strictly after `earlier` in one flow. `Unknown` comes
    /// before every state of both flows; a standard state and an invoice
    /// state are never in order.
    pub open spec fn spec_follows(self, earlier: SlateState) -> bool {
        &&& self.spec_round() > earlier.spec_round()
        &&& (earlier is Unknown || self.spec_is_invoice() == earlier.spec_is_invoice())
    }

    /// The party that has to sign a slate in this state, where there is one.
    pub open spec fn spec_signer(self) -> Option<Role> {
        match self {
            SlateState::Standard1 => Some(Role::Payee),
            SlateState::Standard2 => Some(Role::Payer),
            SlateState::Invoice1 => Some(Role::Payer),
            SlateState::Invoice2 => Some(Role::Payee),
            _ => None,
        }
    }

    /// How many rounds of its flow the slate has been through: 0 for
    /// `Unknown`, then 1, 2, 3.
    pub fn round(self) -> (r: u8)
        ensures
            r == self.spec_round(),
    {
        match self {
            SlateState::Unknown => 0,
            SlateState::Standard1 | SlateState::Invoice1 => 1,
            SlateState::Standard2 | SlateState::Invoice2 => 2,
            SlateState::Standard3 | SlateState::Invoice3 => 3,
        }
    }

    /// Tells whether the state belongs to the invoice flow.
    pub fn is_invoice(self) -> (b: bool)
        ensures
            b == self.spec_is_invoice(),
    {
        match self {
            SlateState::Invoice1 | SlateState::Invoice2 | SlateState::Invoice3 => true,
            _ => false,
        }
    }

    /// Tells whether the state is terminal: the slate is finalized.
    pub fn is_terminal(self) -> (b: bool)
        ensures
            b == self.spec_is_terminal(),
    {
        match self {
            SlateState::Standard3 | SlateState::Invoice3 => true,
            _ => false,
        }
    }

    /// Tells whether `self` comes strictly after `earlier` in one flow.
    pub fn follows(self, earlier: SlateState) -> (b: bool)
        ensures
            b == self.spec_follows(earlier),
    {
        let later: bool = self.round() > earlier.round();
        let unknown: bool = match earlier {
            SlateState::Unknown => true,
            _ => false,
        };
        later && (unknown || self.is_invoice() == earlier.is_invoice())
    }

    /// The party that has to sign a slate in this state, where there is one.
    pub fn signer(self) -> (role: Option<Role>)
        ensures
            role == self.spec_signer(),
    {
        match self {
            SlateState::Standard1 => Some(Role::Payee),
            SlateState::Standard2 => Some(Role::Payer),
            SlateState::Invoice1 => Some(Role::Payer),
            SlateState::Invoice2 => Some(Role::Payee),
            _ => None,
        }
    }

    /// The two-letter code of the state.
    pub fn code(self) -> (s: &'static str)
        ensures
            s@ == self.spec_code(),
    {
        match self {
            SlateState::Unknown => "UN",
            SlateState::Standard1 => "S1",
            SlateState::Standard2 => "S2",
            SlateState::Standard3 => "S3",
            SlateState::Invoice1 => "I1",
            SlateState::Invoice2 => "I2",
            SlateState::Invoice3 => "I3",
        }
    }

    /// The two-letter code of the state.
    pub open spec fn spec_code(self) -> Seq<char> {
        match self {
            SlateState::Unknown => "UN"@,
            SlateState::Standard1 => "S1"@,
            SlateState::Standard2 => "S2"@,
            SlateState::Standard3 => "S3"@,
            SlateState::Invoice1 => "I1"@,
            SlateState::Invoice2 => "I2"@,
            SlateState::Invoice3 => "I3"@,
        }
    }
}

/// The balance change of the party that signs a slate of `amount` in
/// `state`: negative for the payer, positive for the payee. A state in which
/// nobody has to sign counts as the payee's.
pub open spec fn signed_net_change(state: SlateState, amount: int) -> int {
    if state.spec_signer() == Some(Role::Payer) {
        -amount
    } else {
        amount
    }
}

/// The sign of a balance change tells the side: whoever signs as the payer
/// loses the amount, whoever signs as the payee gains it, and either way
/// the change is the amount in size.
pub proof fn lemma_net_change_tells_the_side(state: SlateState, amount: int)
    requires
        amount > 0,
    ensures
        state.spec_signer() == Some(Role::Payer) ==> signed_net_change(state, amount) == -amount
            && signed_net_change(state, amount) < 0,
        state.spec_signer() == Some(Role::Payee) ==> signed_net_change(state, amount) == amount
            && signed_net_change(state, amount) > 0,
        signed_net_change(state, amount) == amount || signed_net_change(state, amount) == -amount,
        state == SlateState::Standard1 || state == SlateState::Invoice2
            ==> state.spec_signer() == Some(Role::Payee),
        state == SlateState::Standard2 || state == SlateState::Invoice1
            ==> state.spec_signer() == Some(Role::Payer),
{
}

/// A transaction in progress as the coordinator sees it.
///
/// `data` is the engine's own serialization of the whole slate. The
/// coordinator never looks into it; it hands it back with every request
/// that names the slate.
#[derive(Clone, Debug, PartialEq, Eq)]
pub struct Slate {
    /// Unique transaction identifier.
    pub id: u128,
    /// Base amount, without fee.
    pub amount: u64,
    /// Number of participants that have to sign.
    pub num_participants: u8,
    /// Current protocol state.
    pub state: SlateState,
    /// Kernel and commitment data, opaque here.
    pub data: String,
}

impl Slate {
    /// Two slates that a party cannot tell apart by what it is shown: same
    /// identifier, same amount, same state.
    pub open spec fn observably_equal(self, other: Slate) -> bool {
        self.id == other.id && self.amount == other.amount && self.state == other.state
    }

    /// The amount can stand as a signed balance change.
    pub open spec fn spec_amount_fits(self) -> bool {
        self.amount <= i64::MAX
    }

    /// The balance change of the party that signs this slate.
    pub open spec fn spec_net_change(self) -> int {
        signed_net_change(self.state, self.amount as int)
    }

    /// The balance change of the party that signs this slate, or `None`
    /// where the amount is too large for a signed 64-bit number.
    pub fn net_change(&self) -> (change: Option<i64>)
        ensures
            change is Some <==> self.spec_amount_fits(),
            change matches Some(c) ==> c == self.spec_net_change(),
    {
        if self.amount > 0x7fff_ffff_ffff_ffffu64 {
            return None;
        }
        let amount: i64 = self.amount as i64;
        match self.state.signer() {
            Some(Role::Payer) => Some(-amount),
            _ => Some(amount),
        }
    }

    /// A copy of the slate.
    pub fn duplicate(&self) -> (copy: Slate)
        ensures
            copy == *self,
    {
        Slate {
            id: self.id,
            amount: self.amount,
            num_participants: self.num_participants,
            state: self.state,
            data: self.data.clone(),
        }
    }

    /// Tells whether the two slates show the same identifier, amount and
    /// state.
    pub fn same_observation(&self, other: &Slate) -> (same: bool)
        ensures
            same == self.observably_equal(*other),
    {
        self.id == other.id && self.amount == other.amount && self.state == other.state
    }
}

/// The header of a slatepack envelope, as read back after decoding.
#[derive(Clone, Debug, PartialEq, Eq)]
pub struct Slatepack {
    /// Delivery mode: 0 for plain text, 1 for encrypted.
    pub mode: u8,
    /// Address of the sender, where the envelope names one.
    pub sender: Option<String>,
    /// Addresses the envelope is encrypted to; none for plain text.
    pub recipients: Vec<String>,
}

} // verus!
