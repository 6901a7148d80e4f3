use vstd::prelude::*;

use crate::json::JsonValue;
use crate::json::merge_entries;
use crate::json::merge_one;
use crate::json::params_insert;
use crate::json::params_map;
use crate::json::wf_params;
use crate::mailer::Mailer;

verus! {

/// The body of one transactional-email send: who it is from, who receives
/// it, which pre-registered template renders it, and the template's
/// substitution parameters.
#[derive(Debug)]
pub struct TransactionalBody {
    pub sender: Mailer,
    pub to: Vec<Mailer>,
    pub reply_to: Mailer,
    pub template_id: u32,
    pub subject: String,
    pub params: JsonValue,
}

/// All fields of the two bodies except the parameter container agree.
pub open spec fn same_except_params(a: TransactionalBody, b: TransactionalBody) -> bool {
    &&& a.sender == b.sender
    &&& a.to == b.to
    &&& a.reply_to == b.reply_to
    &&& a.template_id == b.template_id
    &&& a.subject == b.subject
}

impl TransactionalBody {
    /// Start building a body: empty addresses, template id zero, no
    /// subject, and no parameters yet.
    pub fn builder() -> (b: TransactionalBodyBuilder)
        ensures
            b.body().sender.name@ == Seq::<char>::empty(),
            b.body().sender.email@ == Seq::<char>::empty(),
            b.body().to@ == Seq::<Mailer>::empty(),
            b.body().reply_to.name@ == Seq::<char>::empty(),
            b.body().reply_to.email@ == Seq::<char>::empty(),
            b.body().template_id == 0,
            b.body().subject@ == Seq::<char>::empty(),
            b.body().params == JsonValue::Null,
    {
        let inner = TransactionalBody {
            sender: Mailer { name: String::new(), email: String::new() },
            to: Vec::new(),
            reply_to: Mailer { name: String::new(), email: String::new() },
            template_id: 0,
            subject: String::new(),
            params: JsonValue::Null,
        };
        TransactionalBodyBuilder(inner)
    }
}

/// Accumulates a [`TransactionalBody`] step by step; each step consumes the
/// builder and returns the next one. The parameter container stays
/// well-formed throughout: `null` until the first insertion, afterwards a
/// JSON object with distinct keys.
pub struct TransactionalBodyBuilder(TransactionalBody);

impl TransactionalBodyBuilder {
    #[verifier::type_invariant]
    spec fn inv(self) -> bool {
        wf_params(self.0.params)
    }

    /// The body accumulated so far.
    pub closed spec fn body(self) -> TransactionalBody {
        self.0
    }

    /// Replace the sender.
    pub fn set_sender(self, mailer: Mailer) -> (result: Self)
        ensures
            result.body() == (TransactionalBody { sender: mailer, ..self.body() }),
    {
        proof {
            use_type_invariant(&self);
        }
        let TransactionalBodyBuilder(mut inner) = self;
        inner.sender = mailer;
        TransactionalBodyBuilder(inner)
    }

    /// Append one recipient; repeated calls accumulate in call order.
    pub fn add_to_mailer(self, mailer: Mailer) -> (result: Self)
        ensures
            result.body().to@ == self.body().to@.push(mailer),
            result.body().sender == self.body().sender,
            result.body().reply_to == self.body().reply_to,
            result.body().template_id == self.body().template_id,
            result.body().subject == self.body().subject,
            result.body().params == self.body().params,
    {
        proof {
            use_type_invariant(&self);
        }
        let TransactionalBodyBuilder(mut inner) = self;
        inner.to.push(mailer);
        TransactionalBodyBuilder(inner)
    }

    /// Replace the reply-to address.
    pub fn reply_to(self, mailer: Mailer) -> (result: Self)
        ensures
            result.body() == (TransactionalBody { reply_to: mailer, ..self.body() }),
    {
        proof {
            use_type_invariant(&self);
        }
        let TransactionalBodyBuilder(mut inner) = self;
        inner.reply_to = mailer;
        TransactionalBodyBuilder(inner)
    }

    /// Replace the template id.
    pub fn template_id(self, template_id: u32) -> (result: Self)
        ensures
            result.body() == (TransactionalBody { template_id, ..self.body() }),
    {
        proof {
            use_type_invariant(&self);
        }
        let TransactionalBodyBuilder(mut inner) = self;
        inner.template_id = template_id;
        TransactionalBodyBuilder(inner)
    }

    /// Replace the subject line.
    pub fn subject(self, subject: String) -> (result: Self)
        ensures
            result.body() == (TransactionalBody { subject, ..self.body() }),
    {
        proof {
            use_type_invariant(&self);
        }
        let TransactionalBodyBuilder(mut inner) = self;
        inner.subject = subject;
        TransactionalBodyBuilder(inner)
    }

    /// Insert one string-valued parameter, overwriting any prior value at
    /// that key.
    pub fn add_params(self, key: &str, value: String) -> (result: Self)
        ensures
            same_except_params(result.body(), self.body()),
            params_map(result.body().params) == params_map(self.body().params).insert(
                key@,
                JsonValue::Str(value),
            ),
    {
        proof {
            use_type_invariant(&self);
        }
        let TransactionalBodyBuilder(mut inner) = self;
        inner.params = params_insert(inner.params, key.to_owned(), JsonValue::Str(value));
        TransactionalBodyBuilder(inner)
    }

    /// Insert an array-valued parameter, overwriting any prior value at
    /// that key.
    pub fn add_params_array(self, key: &str, value: Vec<JsonValue>) -> (result: Self)
        ensures
            same_except_params(result.body(), self.body()),
            params_map(result.body().params) == params_map(self.body().params).insert(
                key@,
                JsonValue::Arr(value),
            ),
    {
        proof {
            use_type_invariant(&self);
        }
        let TransactionalBodyBuilder(mut inner) = self;
        inner.params = params_insert(inner.params, key.to_owned(), JsonValue::Arr(value));
        TransactionalBodyBuilder(inner)
    }

    /// Merge a whole JSON object into the parameter container: every
    /// top-level key whose value is not `null` is copied in as supplied,
    /// overwriting any prior value at that key; a `null`-valued key is
    /// skipped. A value that is not an object leaves the builder unchanged.
    pub fn add_values(self, values: JsonValue) -> (result: Self)
        ensures
            same_except_params(result.body(), self.body()),
            (match values {
                JsonValue::Obj(es) => params_map(result.body().params) == merge_entries(
                    params_map(self.body().params),
                    es@,
                ),
                _ => result.body().params == self.body().params,
            }),
    {
        proof {
            use_type_invariant(&self);
        }
        let TransactionalBodyBuilder(inner) = self;
        let TransactionalBody { sender, to, reply_to, template_id, subject, params } = inner;
        let mut params = params;
        let ghost m0 = params_map(params);
        match values {
            JsonValue::Obj(mut es) => {
                let ghost orig = es@;
                while es.len() > 0
                    invariant
                        wf_params(params),
                        merge_entries(params_map(params), es@) == merge_entries(m0, orig),
                    decreases es@.len(),
                {
                    let ghost pre = es@;
                    let ghost mpre = params_map(params);
                    let e = es.remove(0);
                    proof {
                        assert(es@ =~= pre.drop_first());
                        assert(e == pre[0]);
                    }
                    if e.1.is_null() {
                        proof {
                            assert(merge_one(mpre, pre[0].0@, pre[0].1) == mpre);
                        }
                    } else {
                        params = params_insert(params, e.0, e.1);
                        proof {
                            assert(params_map(params) == merge_one(mpre, pre[0].0@, pre[0].1));
                        }
                    }
                }
                proof {
                    assert(merge_entries(params_map(params), es@) == params_map(params));
                }
            },
            _ => {},
        }
        TransactionalBodyBuilder(
            TransactionalBody { sender, to, reply_to, template_id, subject, params },
        )
    }

    /// Finish: hand out the accumulated body. The builder is consumed.
    pub fn create(self) -> (body: TransactionalBody)
        ensures
            body == self.body(),
            wf_params(body.params),
    {
        proof {
            use_type_invariant(&self);
        }
        let TransactionalBodyBuilder(inner) = self;
        inner
    }
}

/// The provider's reply to an accepted send: the assigned message id.
#[derive(Debug, Clone)]
pub struct TransactionalResp {
    pub message_id: String,
}

} // verus!
