//! The canonical message model: the closed set of operations that the ledger
//! simulator understands, and the tagged binary form in which callers hand
//! messages in.

use vstd::prelude::*;

verus! {

/// An amount of one denomination.
#[derive(Debug, Clone, PartialEq, Eq)]
pub struct Coin {
    pub denom: String,
    pub amount: u128,
}

/// The mathematical value of a [`Coin`].
pub struct CoinView {
    pub denom: Seq<char>,
    pub amount: u128,
}

impl DeepView for Coin {
    type V = CoinView;

    open spec fn deep_view(&self) -> CoinView {
        CoinView { denom: self.denom@, amount: self.amount }
    }
}

/// The coins of the denomination `denom` among `coins`, counted together.
pub open spec fn amount_of(coins: Seq<CoinView>, denom: Seq<char>) -> nat
    decreases coins.len(),
{
    if coins.len() == 0 {
        0
    } else {
        amount_of(coins.drop_last(), denom) + if coins.last().denom == denom {
            coins.last().amount as nat
        } else {
            0
        }
    }
}

/// The coins of a denomination in a prefix never count more than those in
/// the whole.
pub proof fn lemma_amount_prefix_le(coins: Seq<CoinView>, denom: Seq<char>, k: int)
    requires
        0 <= k <= coins.len(),
    ensures
        amount_of(coins.subrange(0, k), denom) <= amount_of(coins, denom),
    decreases coins.len(),
{
    if k == coins.len() {
        assert(coins.subrange(0, k) =~= coins);
    } else {
        assert(coins.drop_last().subrange(0, k) =~= coins.subrange(0, k));
        lemma_amount_prefix_le(coins.drop_last(), denom, k);
    }
}

/// The coins of a denomination in two lists put together are those of the
/// one and those of the other.
pub proof fn lemma_amount_concat(a: Seq<CoinView>, b: Seq<CoinView>, denom: Seq<char>)
    ensures
        amount_of(a + b, denom) == amount_of(a, denom) + amount_of(b, denom),
    decreases b.len(),
{
    if b.len() == 0 {
        assert(a + b =~= a);
    } else {
        assert((a + b).drop_last() =~= a + b.drop_last());
        assert((a + b).last() == b.last());
        lemma_amount_concat(a, b.drop_last(), denom);
    }
}

/// A list that holds no coin of a denomination counts none of it.
pub proof fn lemma_amount_absent(coins: Seq<CoinView>, denom: Seq<char>)
    requires
        forall|i: int| 0 <= i < coins.len() ==> (#[trigger] coins[i]).denom != denom,
    ensures
        amount_of(coins, denom) == 0,
    decreases coins.len(),
{
    if coins.len() > 0 {
        assert(coins.last() == coins[coins.len() - 1]);
        assert forall|i: int| 0 <= i < coins.drop_last().len() implies (#[trigger] coins.drop_last()[i]).denom
            != denom by {
            assert(coins.drop_last()[i] == coins[i]);
        }
        lemma_amount_absent(coins.drop_last(), denom);
    }
}

/// Counts the coins of the denomination `denom` among `coins`, where the
/// count fits in 128 bits.
pub fn amount_in(coins: &Vec<Coin>, denom: &String) -> (r: Option<u128>)
    ensures
        r == if amount_of(coins.deep_view(), denom@) <= u128::MAX {
            Some(amount_of(coins.deep_view(), denom@) as u128)
        } else {
            None
        },
{
    let ghost all = coins.deep_view();
    let mut acc: u128 = 0;
    let mut i: usize = 0;
    assert(all.subrange(0, 0) =~= Seq::<CoinView>::empty());
    while i < coins.len()
        invariant
            i <= coins.len(),
            all == coins.deep_view(),
            all.len() == coins.len(),
            acc == amount_of(all.subrange(0, i as int), denom@),
        decreases coins.len() - i,
    {
        proof {
            let next = all.subrange(0, i + 1);
            assert(next.drop_last() =~= all.subrange(0, i as int));
            assert(next.last() == coins[i as int].deep_view());
            lemma_amount_prefix_le(all, denom@, i + 1);
        }
        if coins[i].denom.eq(denom) {
            let amount: u128 = coins[i].amount;
            if acc > u128::MAX - amount {
                return None;
            }
            acc = acc + amount;
        }
        i = i + 1;
    }
    assert(all.subrange(0, i as int) =~= all);
    Some(acc)
}

/// A copy of `coins`.
pub fn copy_coins(coins: &Vec<Coin>) -> (r: Vec<Coin>)
    ensures
        r.deep_view() == coins.deep_view(),
{
    let mut out: Vec<Coin> = Vec::new();
    let mut i: usize = 0;
    while i < coins.len()
        invariant
            i <= coins.len(),
            out.len() == i,
            forall|j: int| 0 <= j < i ==> (#[trigger] out[j]).deep_view() == coins[j].deep_view(),
        decreases coins.len() - i,
    {
        out.push(Coin { denom: coins[i].denom.clone(), amount: coins[i].amount });
        i = i + 1;
    }
    assert(out.deep_view() =~= coins.deep_view());
    out
}

/// A tagged binary message: the tag selects the schema of the payload.
#[derive(Debug, Clone, PartialEq, Eq)]
pub struct Any {
    pub type_url: String,
    pub value: Vec<u8>,
}

/// An operation that the simulator can execute.
#[allow(inconsistent_fields)]
#[derive(Debug, Clone, PartialEq, Eq)]
pub enum CanonicalMessage {
    Execute { contract_addr: String, msg: Vec<u8>, funds: Vec<Coin> },
    Instantiate { code_id: u64, admin: Option<String>, msg: Vec<u8>, funds: Vec<Coin>, label: String },
    Migrate { contract_addr: String, new_code_id: u64, msg: Vec<u8> },
    UpdateAdmin { contract_addr: String, admin: String },
    ClearAdmin { contract_addr: String },
    Send { to_address: String, amount: Vec<Coin> },
    Delegate { validator: String, amount: Coin },
    Undelegate { validator: String, amount: Coin },
    Redelegate { src_validator: String, dst_validator: String, amount: Coin },
    /// A message of a kind that is not decoded here; the simulator receives
    /// it as it came.
    Passthrough { type_url: String, value: Vec<u8> },
}

/// The mathematical value of a [`CanonicalMessage`].
#[allow(inconsistent_fields)]
pub enum MessageView {
    Execute { contract_addr: Seq<char>, msg: Seq<u8>, funds: Seq<CoinView> },
    Instantiate {
        code_id: u64,
        admin: Option<Seq<char>>,
        msg: Seq<u8>,
        funds: Seq<CoinView>,
        label: Seq<char>,
    },
    Migrate { contract_addr: Seq<char>, new_code_id: u64, msg: Seq<u8> },
    UpdateAdmin { contract_addr: Seq<char>, admin: Seq<char> },
    ClearAdmin { contract_addr: Seq<char> },
    Send { to_address: Seq<char>, amount: Seq<CoinView> },
    Delegate { validator: Seq<char>, amount: CoinView },
    Undelegate { validator: Seq<char>, amount: CoinView },
    Redelegate { src_validator: Seq<char>, dst_validator: Seq<char>, amount: CoinView },
    Passthrough { type_url: Seq<char>, value: Seq<u8> },
}

impl DeepView for CanonicalMessage {
    type V = MessageView;

    open spec fn deep_view(&self) -> MessageView {
        match *self {
            CanonicalMessage::Execute { contract_addr, msg, funds } => MessageView::Execute {
                contract_addr: contract_addr@,
                msg: msg@,
                funds: funds.deep_view(),
            },
            CanonicalMessage::Instantiate {
                code_id,
                admin,
                msg,
                funds,
                label,
            } => MessageView::Instantiate {
                code_id,
                admin: admin.deep_view(),
                msg: msg@,
                funds: funds.deep_view(),
                label: label@,
            },
            CanonicalMessage::Migrate { contract_addr, new_code_id, msg } => MessageView::Migrate {
                contract_addr: contract_addr@,
                new_code_id,
                msg: msg@,
            },
            CanonicalMessage::UpdateAdmin { contract_addr, admin } => MessageView::UpdateAdmin {
                contract_addr: contract_addr@,
                admin: admin@,
            },
            CanonicalMessage::ClearAdmin { contract_addr } => MessageView::ClearAdmin {
                contract_addr: contract_addr@,
            },
            CanonicalMessage::Send { to_address, amount } => MessageView::Send {
                to_address: to_address@,
                amount: amount.deep_view(),
            },
            CanonicalMessage::Delegate { validator, amount } => MessageView::Delegate {
                validator: validator@,
                amount: amount.deep_view(),
            },
            CanonicalMessage::Undelegate { validator, amount } => MessageView::Undelegate {
                validator: validator@,
                amount: amount.deep_view(),
            },
            CanonicalMessage::Redelegate {
                src_validator,
                dst_validator,
                amount,
            } => MessageView::Redelegate {
                src_validator: src_validator@,
                dst_validator: dst_validator@,
                amount: amount.deep_view(),
            },
            CanonicalMessage::Passthrough { type_url, value } => MessageView::Passthrough {
                type_url: type_url@,
                value: value@,
            },
        }
    }
}

/// Why a tagged message could not be turned into a canonical one.
#[derive(Debug, Clone, PartialEq, Eq)]
pub enum DecodeError {
    /// The payload is no valid encoding of the schema that the tag names.
    Malformed { type_tag: String },
    /// A coin amount is no unsigned decimal literal of at most 128 bits.
    InvalidAmount,
}

/// The mathematical value of a [`DecodeError`].
pub enum DecodeErrorView {
    Malformed { type_tag: Seq<char> },
    InvalidAmount,
}

impl DeepView for DecodeError {
    type V = DecodeErrorView;

    open spec fn deep_view(&self) -> DecodeErrorView {
        match *self {
            DecodeError::Malformed { type_tag } => DecodeErrorView::Malformed { type_tag: type_tag@ },
            DecodeError::InvalidAmount => DecodeErrorView::InvalidAmount,
        }
    }
}

impl DecodeError {
    /// A one-line description of the error.
    pub fn message(&self) -> (s: String)
        ensures
            self is InvalidAmount ==> s@ == "invalid coin amount"@,
            self matches DecodeError::Malformed { type_tag } ==> s@ == "malformed payload for "@
                + type_tag@,
    {
        match self {
            DecodeError::Malformed { type_tag } => {
                "malformed payload for ".to_owned().concat(type_tag.as_str())
            },
            DecodeError::InvalidAmount => "invalid coin amount".to_owned(),
        }
    }
}

} // verus!
