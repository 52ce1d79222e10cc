//! Intent requests: the intent that the user invoked and the slots it carries.
use vstd::prelude::*;
use vstd::string::*;
use crate::alexa::request::GenericRequestImpl;
use crate::alexa::text::{clone_opt, str_eq};

verus! {

/// Whether the user confirmed an intent.
#[derive(Clone, Copy, Debug, PartialEq, Eq, Structural)]
pub enum IntentConfirmationStatus {
    Confirmed,
    Denied,
    NoStatus,
}

impl IntentConfirmationStatus {
    /// The status written as `s`, if any.
    pub open spec fn parse(s: Seq<char>) -> Option<IntentConfirmationStatus> {
        if s == "CONFIRMED"@ {
            Some(IntentConfirmationStatus::Confirmed)
        } else if s == "DENIED"@ {
            Some(IntentConfirmationStatus::Denied)
        } else if s == "NONE"@ {
            Some(IntentConfirmationStatus::NoStatus)
        } else {
            None
        }
    }

    /// Reads a confirmation status; an unknown name is an error whose message names it.
    pub fn from_str(s: &str) -> (r: Result<IntentConfirmationStatus, String>)
        ensures
            match Self::parse(s@) {
                Some(c) => r == Ok::<IntentConfirmationStatus, String>(c),
                None => r is Err && r->Err_0@ == "unknown confirmation status: "@ + s@,
            },
    {
        if str_eq(s, "CONFIRMED") {
            Ok(IntentConfirmationStatus::Confirmed)
        } else if str_eq(s, "DENIED") {
            Ok(IntentConfirmationStatus::Denied)
        } else if str_eq(s, "NONE") {
            Ok(IntentConfirmationStatus::NoStatus)
        } else {
            let mut msg = String::from_str("unknown confirmation status: ");
            msg.append(s);
            Err(msg)
        }
    }
}

/// The value that the user gave a slot, as Alexa resolved it.
pub struct IntentRequestSlotValue {
    pub slot_type: String,
    pub value: Option<String>,
}

impl Clone for IntentRequestSlotValue {
    fn clone(&self) -> (r: Self)
        ensures
            r == *self,
    {
        Self { slot_type: self.slot_type.clone(), value: clone_opt(&self.value) }
    }
}

/// One slot of an intent.
pub struct IntentRequestSlot {
    pub confirmation_status: Option<String>,
    pub name: Option<String>,
    pub slot_value: IntentRequestSlotValue,
    pub source: Option<String>,
    pub value: Option<String>,
}

impl Clone for IntentRequestSlot {
    fn clone(&self) -> (r: Self)
        ensures
            r == *self,
    {
        Self {
            confirmation_status: clone_opt(&self.confirmation_status),
            name: clone_opt(&self.name),
            slot_value: self.slot_value.clone(),
            source: clone_opt(&self.source),
            value: clone_opt(&self.value),
        }
    }
}

impl IntentRequestSlot {
    /// The value of the slot: the resolved slot value when there is one, else the
    /// slot's own value.
    pub open spec fn spec_value(self) -> Option<String> {
        match self.slot_value.value {
            Some(v) => Some(v),
            None => self.value,
        }
    }

    /// The value of the slot: the resolved slot value when there is one, else the
    /// slot's own value.
    pub fn value(&self) -> (r: Option<String>)
        ensures
            r == self.spec_value(),
    {
        match &self.slot_value.value {
            Some(v) => Some(v.clone()),
            None => clone_opt(&self.value),
        }
    }
}

/// A slot of an intent under its name; `slot` is `None` when what is stored under
/// the name is not a well-formed slot.
pub struct SlotEntry {
    pub name: String,
    pub slot: Option<IntentRequestSlot>,
}

/// The slot stored under the first entry named `key`.
pub open spec fn lookup_slot(entries: Seq<SlotEntry>, key: Seq<char>) -> Option<IntentRequestSlot>
    decreases entries.len(),
{
    if entries.len() == 0 {
        None
    } else if entries[0].name@ == key {
        entries[0].slot
    } else {
        lookup_slot(entries.drop_first(), key)
    }
}

/// The intent that the user invoked.
pub struct IntentRequestIntent {
    pub name: String,
    pub confirmation_status: String,
    pub slots: Option<Vec<SlotEntry>>,
}

/// A request that invokes an intent.
pub struct IntentRequest {
    pub intent_type: String,
    pub request_id: String,
    pub timestamp: String,
    pub dialog_state: String,
    pub locale: String,
    pub intent: IntentRequestIntent,
}

impl GenericRequestImpl for IntentRequest {

}

impl IntentRequest {
    /// The slot named `key`, when the intent has slots and one of them is named so
    /// and well formed.
    pub open spec fn spec_slot(self, key: Seq<char>) -> Option<IntentRequestSlot> {
        match self.intent.slots {
            Some(v) => lookup_slot(v@, key),
            None => None,
        }
    }

    /// The slot named `slot`, when the intent has slots and one of them is named so
    /// and well formed.
    pub fn get_slot(&self, slot: &str) -> (r: Option<IntentRequestSlot>)
        ensures
            r == self.spec_slot(slot@),
    {
        let entries = match &self.intent.slots {
            Some(v) => v,
            None => {
                return None;
            },
        };
        assert(self.spec_slot(slot@) == lookup_slot(entries@, slot@));
        let n = entries.len();
        let mut i: usize = 0;
        assert(entries@.skip(0) =~= entries@);
        while i < n
            invariant
                n == entries@.len(),
                i <= n,
                self.spec_slot(slot@) == lookup_slot(entries@, slot@),
                lookup_slot(entries@, slot@) == lookup_slot(entries@.skip(i as int), slot@),
            decreases n - i,
        {
            let ghost rest = entries@.skip(i as int);
            assert(rest[0] == entries@[i as int]);
            assert(rest.drop_first() =~= entries@.skip(i + 1));
            if str_eq(entries[i].name.as_str(), slot) {
                assert(lookup_slot(rest, slot@) == rest[0].slot);
                return match &entries[i].slot {
                    Some(s) => Some(s.clone()),
                    None => None,
                };
            }
            assert(lookup_slot(rest, slot@) == lookup_slot(rest.drop_first(), slot@));
            i = i + 1;
        }
        assert(entries@.skip(n as int).len() == 0);
        None
    }
}

} // verus!
