//! What a call receives from the host chain and what it hands back: the
//! attached funds, and the response with its outbound protocol messages.

use vstd::prelude::*;

verus! {

/// The stake that `add_validator` delegates, and the least amount that the
/// first attached fund entry must hold.
pub const MIN_STAKE: u128 = 10;

/// An amount of one denomination.
#[derive(Clone, Debug, PartialEq, Eq)]
pub struct Coin {
    pub denom: String,
    pub amount: u128,
}

/// A coin as plain values.
pub struct CoinView {
    pub denom: Seq<char>,
    pub amount: u128,
}

impl View for Coin {
    type V = CoinView;

    open spec fn view(&self) -> CoinView {
        CoinView { denom: self.denom@, amount: self.amount }
    }
}

/// Who sent the command, and the funds attached to it.
#[derive(Clone, Debug, PartialEq, Eq)]
pub struct MessageInfo {
    pub sender: String,
    pub funds: Vec<Coin>,
}

/// A `MessageInfo` as plain values.
#[verifier::ext_equal]
pub struct MessageInfoView {
    pub sender: Seq<char>,
    pub funds: Seq<CoinView>,
}

impl View for MessageInfo {
    type V = MessageInfoView;

    open spec fn view(&self) -> MessageInfoView {
        MessageInfoView {
            sender: self.sender@,
            funds: Seq::new(self.funds@.len(), |i: int| self.funds@[i]@),
        }
    }
}

/// An instruction that the host chain carries out once the call has
/// succeeded.
#[derive(Clone, Debug, PartialEq, Eq)]
pub enum ProtocolMsg {
    /// Stake `amount` with `validator`.
    Delegate { validator: String, amount: Coin },
    /// Take `amount` back from `validator`.
    Undelegate { validator: String, amount: Coin },
    /// Collect the rewards earned with `validator`.
    WithdrawDelegatorReward { validator: String },
}

/// A protocol message as plain values.
pub enum ProtocolMsgView {
    Delegate { validator: Seq<char>, amount: CoinView },
    Undelegate { validator: Seq<char>, amount: CoinView },
    WithdrawDelegatorReward { validator: Seq<char> },
}

impl View for ProtocolMsg {
    type V = ProtocolMsgView;

    open spec fn view(&self) -> ProtocolMsgView {
        match self {
            ProtocolMsg::Delegate { validator, amount } => ProtocolMsgView::Delegate {
                validator: validator@,
                amount: amount@,
            },
            ProtocolMsg::Undelegate { validator, amount } => ProtocolMsgView::Undelegate {
                validator: validator@,
                amount: amount@,
            },
            ProtocolMsg::WithdrawDelegatorReward { validator } => {
                ProtocolMsgView::WithdrawDelegatorReward { validator: validator@ }
            },
        }
    }
}

/// A key and a value that the call reports in its event.
#[derive(Clone, Debug, PartialEq, Eq)]
pub struct Attribute {
    pub key: String,
    pub value: String,
}

/// An attribute as plain values.
pub struct AttributeView {
    pub key: Seq<char>,
    pub value: Seq<char>,
}

impl View for Attribute {
    type V = AttributeView;

    open spec fn view(&self) -> AttributeView {
        AttributeView { key: self.key@, value: self.value@ }
    }
}

/// What a successful call hands back: protocol messages, in the order in
/// which the host is to carry them out, and attributes.
#[derive(Clone, Debug, PartialEq, Eq)]
pub struct Response {
    pub messages: Vec<ProtocolMsg>,
    pub attributes: Vec<Attribute>,
}

/// A response as plain values.
#[verifier::ext_equal]
pub struct ResponseView {
    pub messages: Seq<ProtocolMsgView>,
    pub attributes: Seq<AttributeView>,
}

impl View for Response {
    type V = ResponseView;

    open spec fn view(&self) -> ResponseView {
        ResponseView {
            messages: Seq::new(self.messages@.len(), |i: int| self.messages@[i]@),
            attributes: Seq::new(self.attributes@.len(), |i: int| self.attributes@[i]@),
        }
    }
}

impl ResponseView {
    /// The response that carries nothing.
    pub open spec fn empty() -> ResponseView {
        ResponseView { messages: Seq::empty(), attributes: Seq::empty() }
    }

    /// This response with `msg` after its messages.
    pub open spec fn add_message(self, msg: ProtocolMsgView) -> ResponseView {
        ResponseView { messages: self.messages.push(msg), attributes: self.attributes }
    }

    /// This response with the attribute `key`, `value` after its attributes.
    pub open spec fn add_attribute(self, key: Seq<char>, value: Seq<char>) -> ResponseView {
        ResponseView {
            messages: self.messages,
            attributes: self.attributes.push(AttributeView { key, value }),
        }
    }
}

impl Response {
    /// The response that carries nothing.
    pub fn new() -> (response: Response)
        ensures
            response@ == ResponseView::empty(),
    {
        let response = Response { messages: Vec::new(), attributes: Vec::new() };
        assert(response@.messages =~= Seq::empty());
        assert(response@.attributes =~= Seq::empty());
        response
    }

    /// Appends a protocol message.
    pub fn add_message(self, msg: ProtocolMsg) -> (response: Response)
        ensures
            response@ == self@.add_message(msg@),
    {
        let mut response = self;
        response.messages.push(msg);
        assert(response@.messages =~= self@.messages.push(msg@));
        assert(response@.attributes =~= self@.attributes);
        response
    }

    /// Appends an attribute.
    pub fn add_attribute(self, key: &str, value: &str) -> (response: Response)
        ensures
            response@ == self@.add_attribute(key@, value@),
    {
        let mut response = self;
        response.attributes.push(Attribute { key: key.to_owned(), value: value.to_owned() });
        assert(response@.attributes =~= self@.attributes.push(
            AttributeView { key: key@, value: value@ },
        ));
        assert(response@.messages =~= self@.messages);
        response
    }
}

impl Default for Response {
    /// The response that carries nothing.
    fn default() -> (response: Response)
        ensures
            response@ == ResponseView::empty(),
    {
        Response::new()
    }
}

} // verus!
