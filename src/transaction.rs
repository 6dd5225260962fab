//! The assembled action: a transaction skeleton, and the builder through
//! which each level of a resolved chain fills in exactly one field.
use vstd::prelude::*;

verus! {

/// What the transaction does: the terminal level's content.
pub enum Payload {
    Transfer { amount: u128 },
    Stake { amount: u128 },
    FunctionCall { method_name: String },
    ViewCall { method_name: String },
}

/// A complete transaction skeleton, ready for signing and submission.
pub struct Transaction {
    pub signer_id: String,
    pub receiver_id: String,
    pub payload: Payload,
}

/// A transaction under assembly. Each field is set at most once.
pub struct TransactionBuilder {
    pub signer_id: Option<String>,
    pub receiver_id: Option<String>,
    pub payload: Option<Payload>,
}

impl TransactionBuilder {
    /// A skeleton with no field set.
    pub fn new() -> (r: TransactionBuilder)
        ensures
            r.is_empty(),
    {
        TransactionBuilder { signer_id: None, receiver_id: None, payload: None }
    }

    pub open spec fn is_empty(self) -> bool {
        &&& self.signer_id is None
        &&& self.receiver_id is None
        &&& self.payload is None
    }

    pub fn set_signer(self, signer_id: String) -> (r: TransactionBuilder)
        requires
            self.signer_id is None,
        ensures
            r == (TransactionBuilder { signer_id: Some(signer_id), ..self }),
    {
        TransactionBuilder { signer_id: Some(signer_id), ..self }
    }

    pub fn set_receiver(self, receiver_id: String) -> (r: TransactionBuilder)
        requires
            self.receiver_id is None,
        ensures
            r == (TransactionBuilder { receiver_id: Some(receiver_id), ..self }),
    {
        TransactionBuilder { receiver_id: Some(receiver_id), ..self }
    }

    pub fn set_payload(self, payload: Payload) -> (r: TransactionBuilder)
        requires
            self.payload is None,
        ensures
            r == (TransactionBuilder { payload: Some(payload), ..self }),
    {
        TransactionBuilder { payload: Some(payload), ..self }
    }

    /// The finished transaction: present exactly when every field is set.
    pub fn build(self) -> (r: Option<Transaction>)
        ensures
            r == (if self.signer_id is Some && self.receiver_id is Some && self.payload is Some {
                Some(
                    Transaction {
                        signer_id: self.signer_id->0,
                        receiver_id: self.receiver_id->0,
                        payload: self.payload->0,
                    },
                )
            } else {
                None::<Transaction>
            }),
    {
        match (self.signer_id, self.receiver_id, self.payload) {
            (Some(signer_id), Some(receiver_id), Some(payload)) => Some(
                Transaction { signer_id, receiver_id, payload },
            ),
            _ => None,
        }
    }
}

/// A transaction together with the equivalent command line.
pub struct Assembled {
    pub transaction: Transaction,
    pub console_command: String,
}

/// The command line extended by one resolved token, separated by a space.
pub open spec fn extended(console_command: Seq<char>, token: Seq<char>) -> Seq<char> {
    console_command + seq![' '] + token
}

/// Appends one resolved token to the command line.
pub fn extend_command(console_command: &String, token: &String) -> (r: String)
    ensures
        r@ == extended(console_command@, token@),
{
    let mut s = console_command.clone();
    s.append(" ");
    proof { reveal_strlit(" "); }
    s.append(token.as_str());
    s
}

} // verus!
