//! Invoice records: the durable `Invoice` row, the payload a new row
//! is created from, and the payload a state update is made from.

use vstd::prelude::*;

use crate::invoice_state::InvoiceState;

verus! {

/// One issued invoice, as the store holds it.
///
/// `id` is the store's own row id; `op_id` is the operation identifier
/// the backend assigned, globally unique, and the key invoices are
/// looked up by. Only `state` ever changes after creation.
#[derive(Debug)]
pub struct Invoice {
    pub id: i32,
    pub federation_id: String,
    pub op_id: String,
    pub app_user_id: i32,
    pub bolt11: String,
    pub amount: i64,
    pub state: InvoiceState,
    pub tweak: i64,
}

impl Clone for Invoice {
    fn clone(&self) -> (r: Self)
        ensures
            r == *self,
    {
        Invoice {
            id: self.id,
            federation_id: self.federation_id.clone(),
            op_id: self.op_id.clone(),
            app_user_id: self.app_user_id,
            bolt11: self.bolt11.clone(),
            amount: self.amount,
            state: self.state,
            tweak: self.tweak,
        }
    }
}

/// What the issuer hands the store to create an invoice row from.
#[derive(Debug)]
pub struct InvoiceForCreate {
    pub op_id: String,
    pub federation_id: String,
    pub app_user_id: i32,
    pub amount: i64,
    pub bolt11: String,
    pub tweak: i64,
    pub state: InvoiceState,
}

impl Clone for InvoiceForCreate {
    fn clone(&self) -> (r: Self)
        ensures
            r == *self,
    {
        InvoiceForCreate {
            op_id: self.op_id.clone(),
            federation_id: self.federation_id.clone(),
            app_user_id: self.app_user_id,
            amount: self.amount,
            bolt11: self.bolt11.clone(),
            tweak: self.tweak,
            state: self.state,
        }
    }
}

impl InvoiceForCreate {
    pub fn builder() -> (r: InvoiceForCreateBuilder)
        ensures
            r == InvoiceForCreateBuilder::spec_empty(),
    {
        InvoiceForCreateBuilder {
            op_id: None,
            federation_id: None,
            app_user_id: None,
            amount: None,
            bolt11: None,
            tweak: None,
            state: None,
        }
    }
}

/// Step-by-step construction of an `InvoiceForCreate`; `build` fails
/// naming the first field still missing.
pub struct InvoiceForCreateBuilder {
    pub op_id: Option<String>,
    pub federation_id: Option<String>,
    pub app_user_id: Option<i32>,
    pub amount: Option<i64>,
    pub bolt11: Option<String>,
    pub tweak: Option<i64>,
    pub state: Option<InvoiceState>,
}

impl InvoiceForCreateBuilder {
    /// The builder with no field set yet.
    pub open spec fn spec_empty() -> InvoiceForCreateBuilder {
        InvoiceForCreateBuilder {
            op_id: None,
            federation_id: None,
            app_user_id: None,
            amount: None,
            bolt11: None,
            tweak: None,
            state: None,
        }
    }

    pub fn op_id(self, op_id: String) -> (r: Self)
        ensures
            r == (InvoiceForCreateBuilder { op_id: Some(op_id), ..self }),
    {
        InvoiceForCreateBuilder { op_id: Some(op_id), ..self }
    }

    pub fn federation_id(self, federation_id: String) -> (r: Self)
        ensures
            r == (InvoiceForCreateBuilder { federation_id: Some(federation_id), ..self }),
    {
        InvoiceForCreateBuilder { federation_id: Some(federation_id), ..self }
    }

    pub fn app_user_id(self, app_user_id: i32) -> (r: Self)
        ensures
            r == (InvoiceForCreateBuilder { app_user_id: Some(app_user_id), ..self }),
    {
        InvoiceForCreateBuilder { app_user_id: Some(app_user_id), ..self }
    }

    pub fn amount(self, amount: i64) -> (r: Self)
        ensures
            r == (InvoiceForCreateBuilder { amount: Some(amount), ..self }),
    {
        InvoiceForCreateBuilder { amount: Some(amount), ..self }
    }

    pub fn bolt11(self, bolt11: String) -> (r: Self)
        ensures
            r == (InvoiceForCreateBuilder { bolt11: Some(bolt11), ..self }),
    {
        InvoiceForCreateBuilder { bolt11: Some(bolt11), ..self }
    }

    pub fn tweak(self, tweak: i64) -> (r: Self)
        ensures
            r == (InvoiceForCreateBuilder { tweak: Some(tweak), ..self }),
    {
        InvoiceForCreateBuilder { tweak: Some(tweak), ..self }
    }

    pub fn state(self, state: InvoiceState) -> (r: Self)
        ensures
            r == (InvoiceForCreateBuilder { state: Some(state), ..self }),
    {
        InvoiceForCreateBuilder { state: Some(state), ..self }
    }

    /// Succeeds exactly when every field was set, and then carries
    /// every field over unchanged.
    pub fn build(self) -> (r: Result<InvoiceForCreate, &'static str>)
        ensures
            r is Ok <==> (self.op_id is Some && self.federation_id is Some
                && self.app_user_id is Some && self.amount is Some && self.bolt11 is Some
                && self.tweak is Some && self.state is Some),
            r matches Ok(c) ==> c.op_id == self.op_id.unwrap() && c.federation_id
                == self.federation_id.unwrap() && c.app_user_id == self.app_user_id.unwrap()
                && c.amount == self.amount.unwrap() && c.bolt11 == self.bolt11.unwrap() && c.tweak
                == self.tweak.unwrap() && c.state == self.state.unwrap(),
    {
        let op_id = match self.op_id {
            Some(v) => v,
            None => {
                return Err("op_id is required");
            },
        };
        let federation_id = match self.federation_id {
            Some(v) => v,
            None => {
                return Err("federation_id is required");
            },
        };
        let app_user_id = match self.app_user_id {
            Some(v) => v,
            None => {
                return Err("app_user_id is required");
            },
        };
        let amount = match self.amount {
            Some(v) => v,
            None => {
                return Err("amount is required");
            },
        };
        let bolt11 = match self.bolt11 {
            Some(v) => v,
            None => {
                return Err("bolt11 is required");
            },
        };
        let tweak = match self.tweak {
            Some(v) => v,
            None => {
                return Err("tweak is required");
            },
        };
        let state = match self.state {
            Some(v) => v,
            None => {
                return Err("state is required");
            },
        };
        Ok(InvoiceForCreate { op_id, federation_id, app_user_id, amount, bolt11, tweak, state })
    }
}

/// What the lifecycle tracker hands the store to update a row from.
#[derive(Debug)]
pub struct InvoiceForUpdate {
    pub state: InvoiceState,
}

impl Clone for InvoiceForUpdate {
    fn clone(&self) -> (r: Self)
        ensures
            r == *self,
    {
        InvoiceForUpdate { state: self.state }
    }
}

impl InvoiceForUpdate {
    pub fn builder() -> (r: InvoiceForUpdateBuilder)
        ensures
            r.state is None,
    {
        InvoiceForUpdateBuilder { state: None }
    }
}

/// Step-by-step construction of an `InvoiceForUpdate`.
pub struct InvoiceForUpdateBuilder {
    pub state: Option<InvoiceState>,
}

impl InvoiceForUpdateBuilder {
    pub fn state(self, state: InvoiceState) -> (r: Self)
        ensures
            r.state == Some(state),
    {
        InvoiceForUpdateBuilder { state: Some(state) }
    }

    /// Succeeds exactly when the state was set.
    pub fn build(self) -> (r: Result<InvoiceForUpdate, &'static str>)
        ensures
            r is Ok <==> self.state is Some,
            r matches Ok(u) ==> u.state == self.state.unwrap(),
    {
        match self.state {
            Some(state) => Ok(InvoiceForUpdate { state }),
            None => Err("state is required"),
        }
    }
}

} // verus!
