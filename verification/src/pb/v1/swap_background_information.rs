use vstd::prelude::*;
use crate::content::SameContent;
use vstd::std_specs::convert::FromSpecImpl;

verus! {

/// Transcribed from sns/root.
#[derive(Debug, PartialEq, Default)]
pub struct CanisterSummary {
    pub canister_id: Option<crate::ids::PrincipalId>,
    pub status: Option<CanisterStatusResultV2>,
}

impl Clone for CanisterSummary {
    fn clone(&self) -> (cloned: Self)
        ensures
            cloned.same_content(self),
    {
        CanisterSummary {
            canister_id: self.canister_id.clone(),
            status: self.status.clone(),
        }
    }
}

impl SameContent for CanisterSummary {
    open spec fn same_content(&self, other: &Self) -> bool {
        &&& self.canister_id.same_content(&other.canister_id)
        &&& self.status.same_content(&other.status)
    }
}

#[derive(Debug, PartialEq, Default)]
pub struct CanisterStatusResultV2 {
    pub status: Option<i32>,
    pub module_hash: Vec<u8>,
    // no controller field, because that is obsolete and superseded by the
    // controllers field within settings.
    pub controllers: Vec<crate::ids::PrincipalId>,
    // Resources
    pub memory_size: Option<u64>,
    pub cycles: Option<u64>,
    pub freezing_threshold: Option<u64>,
    pub idle_cycles_burned_per_day: Option<u64>,
}

impl Clone for CanisterStatusResultV2 {
    fn clone(&self) -> (cloned: Self)
        ensures
            cloned.same_content(self),
    {
        CanisterStatusResultV2 {
            status: self.status.clone(),
            module_hash: self.module_hash.clone(),
            controllers: self.controllers.clone(),
            memory_size: self.memory_size.clone(),
            cycles: self.cycles.clone(),
            freezing_threshold: self.freezing_threshold.clone(),
            idle_cycles_burned_per_day: self.idle_cycles_burned_per_day.clone(),
        }
    }
}

impl SameContent for CanisterStatusResultV2 {
    open spec fn same_content(&self, other: &Self) -> bool {
        &&& self.status.same_content(&other.status)
        &&& self.module_hash.same_content(&other.module_hash)
        &&& self.controllers.same_content(&other.controllers)
        &&& self.memory_size.same_content(&other.memory_size)
        &&& self.cycles.same_content(&other.cycles)
        &&& self.freezing_threshold.same_content(&other.freezing_threshold)
        &&& self.idle_cycles_burned_per_day.same_content(&other.idle_cycles_burned_per_day)
    }
}

impl CanisterStatusResultV2 {
    /// Returns the enum value of `status`, or the default if the field is unset or set to an invalid enum value.
    pub fn status(&self) -> (value: CanisterStatusType)
        ensures
            value == (match self.status {
                Some(number) => CanisterStatusType::from_i32_or_default(number),
                None => CanisterStatusType::Unspecified,
            }),
    {
        match self.status {
            Some(number) => match CanisterStatusType::from_i32(number) {
                Some(value) => value,
                None => CanisterStatusType::default(),
            },
            None => CanisterStatusType::default(),
        }
    }

    /// Sets `status` to the provided enum value.
    pub fn set_status(&mut self, value: CanisterStatusType)
        ensures
            *final(self) == (CanisterStatusResultV2 { status: Some(value.spec_value()), ..*old(self) }),
    {
        self.status = Some(i32::from(value));
    }

    /// `status` gives back the value that `set_status` set.
    pub proof fn lemma_status_after_set_status(self, value: CanisterStatusType)
        ensures
            CanisterStatusType::from_i32_or_default((CanisterStatusResultV2 { status: Some(value.spec_value()), ..self }).status->0) == value,
    {
        value.lemma_value_round_trip();
    }

    /// Returns the value of `memory_size`, or the default value if `memory_size` is unset.
    pub fn memory_size(&self) -> (value: u64)
        ensures
            value == (match self.memory_size {
                Some(field) => field,
                None => 0,
            }),
    {
        match self.memory_size {
            Some(field) => field,
            None => 0,
        }
    }

    /// Returns the value of `cycles`, or the default value if `cycles` is unset.
    pub fn cycles(&self) -> (value: u64)
        ensures
            value == (match self.cycles {
                Some(field) => field,
                None => 0,
            }),
    {
        match self.cycles {
            Some(field) => field,
            None => 0,
        }
    }

    /// Returns the value of `freezing_threshold`, or the default value if `freezing_threshold` is unset.
    pub fn freezing_threshold(&self) -> (value: u64)
        ensures
            value == (match self.freezing_threshold {
                Some(field) => field,
                None => 0,
            }),
    {
        match self.freezing_threshold {
            Some(field) => field,
            None => 0,
        }
    }

    /// Returns the value of `idle_cycles_burned_per_day`, or the default value if `idle_cycles_burned_per_day` is unset.
    pub fn idle_cycles_burned_per_day(&self) -> (value: u64)
        ensures
            value == (match self.idle_cycles_burned_per_day {
                Some(field) => field,
                None => 0,
            }),
    {
        match self.idle_cycles_burned_per_day {
            Some(field) => field,
            None => 0,
        }
    }
}

/// A canister can be stopped by calling stop_canister. The effect of
/// stop_canister can be undone by calling start_canister. Stopping is an
/// intermediate state where new method calls are rejected, but in-flight
/// method calls are allowed to be fully serviced.
#[derive(Copy, Debug, PartialEq, Eq, Structural, Hash, PartialOrd, Ord)]
pub enum CanisterStatusType {
    Unspecified,
    Running,
    Stopping,
    Stopped,
}

impl Clone for CanisterStatusType {
    fn clone(&self) -> (cloned: Self)
        ensures
            cloned == *self,
    {
        *self
    }
}

impl SameContent for CanisterStatusType {
    open spec fn same_content(&self, other: &Self) -> bool {
        *self == *other
    }
}

impl CanisterStatusType {
    /// The number that the ProtoBuf definition gives to this variant.
    pub open spec fn spec_value(self) -> i32 {
        match self {
            CanisterStatusType::Unspecified => 0,
            CanisterStatusType::Running => 1,
            CanisterStatusType::Stopping => 2,
            CanisterStatusType::Stopped => 3,
        }
    }

    /// The variant that the ProtoBuf definition numbers `value`, if there is one.
    pub open spec fn spec_from_i32(value: i32) -> Option<CanisterStatusType> {
        match value {
            0 => Some(CanisterStatusType::Unspecified),
            1 => Some(CanisterStatusType::Running),
            2 => Some(CanisterStatusType::Stopping),
            3 => Some(CanisterStatusType::Stopped),
            _ => None,
        }
    }

    /// The variant numbered `value`, or the default variant where there is none.
    pub open spec fn from_i32_or_default(value: i32) -> CanisterStatusType {
        match Self::spec_from_i32(value) {
            Some(variant) => variant,
            None => CanisterStatusType::Unspecified,
        }
    }

    /// The name of this variant in the ProtoBuf definition.
    pub open spec fn str_name(self) -> Seq<char> {
        match self {
            CanisterStatusType::Unspecified => "CANISTER_STATUS_TYPE_UNSPECIFIED"@,
            CanisterStatusType::Running => "CANISTER_STATUS_TYPE_RUNNING"@,
            CanisterStatusType::Stopping => "CANISTER_STATUS_TYPE_STOPPING"@,
            CanisterStatusType::Stopped => "CANISTER_STATUS_TYPE_STOPPED"@,
        }
    }

    /// Returns `true` if `value` is a variant of `CanisterStatusType`.
    pub fn is_valid(value: i32) -> (valid: bool)
        ensures
            valid == Self::spec_from_i32(value) is Some,
    {
        0 <= value && value <= 3
    }

    /// Converts an `i32` to a `CanisterStatusType`, or `None` if `value` is not a valid variant.
    pub fn from_i32(value: i32) -> (variant: Option<CanisterStatusType>)
        ensures
            variant == Self::spec_from_i32(value),
            variant matches Some(v) ==> v.spec_value() == value,
    {
        match value {
            0 => Some(CanisterStatusType::Unspecified),
            1 => Some(CanisterStatusType::Running),
            2 => Some(CanisterStatusType::Stopping),
            3 => Some(CanisterStatusType::Stopped),
            _ => None,
        }
    }

    /// String value of the enum field names used in the ProtoBuf definition.
    ///
    /// The values are not transformed in any way and thus are considered stable
    /// (if the ProtoBuf definition does not change) and safe for programmatic use.
    pub fn as_str_name(&self) -> (name: &'static str)
        ensures
            name@ == self.str_name(),
    {
        match self {
            CanisterStatusType::Unspecified => "CANISTER_STATUS_TYPE_UNSPECIFIED",
            CanisterStatusType::Running => "CANISTER_STATUS_TYPE_RUNNING",
            CanisterStatusType::Stopping => "CANISTER_STATUS_TYPE_STOPPING",
            CanisterStatusType::Stopped => "CANISTER_STATUS_TYPE_STOPPED",
        }
    }

    /// Every variant is given back by `from_i32` from its own number.
    pub proof fn lemma_value_round_trip(self)
        ensures
            Self::spec_from_i32(self.spec_value()) == Some(self),
    {
    }

    /// A number that `from_i32` accepts is the number of the variant it gives.
    pub proof fn lemma_from_i32_inverse(value: i32)
        ensures
            Self::spec_from_i32(value) matches Some(v) ==> v.spec_value() == value,
            Self::spec_from_i32(value) is None ==> Self::from_i32_or_default(value) == CanisterStatusType::Unspecified,
    {
    }

    /// No two variants share a name.
    pub proof fn lemma_str_name_injective(self, other: CanisterStatusType)
        requires
            self.str_name() == other.str_name(),
        ensures
            self == other,
    {
        reveal_strlit("CANISTER_STATUS_TYPE_UNSPECIFIED");
        reveal_strlit("CANISTER_STATUS_TYPE_RUNNING");
        reveal_strlit("CANISTER_STATUS_TYPE_STOPPING");
        reveal_strlit("CANISTER_STATUS_TYPE_STOPPED");
        assert("CANISTER_STATUS_TYPE_UNSPECIFIED"@.len() == 32);
        assert("CANISTER_STATUS_TYPE_UNSPECIFIED"@[21] == 'U');
        assert("CANISTER_STATUS_TYPE_RUNNING"@.len() == 28);
        assert("CANISTER_STATUS_TYPE_RUNNING"@[21] == 'R');
        assert("CANISTER_STATUS_TYPE_STOPPING"@.len() == 29);
        assert("CANISTER_STATUS_TYPE_STOPPING"@[21] == 'S');
        assert("CANISTER_STATUS_TYPE_STOPPED"@.len() == 28);
        assert("CANISTER_STATUS_TYPE_STOPPED"@[21] == 'S');
    }
}

impl Default for CanisterStatusType {
    fn default() -> (variant: CanisterStatusType)
        ensures
            variant == CanisterStatusType::Unspecified,
    {
        CanisterStatusType::Unspecified
    }
}

impl From<CanisterStatusType> for i32 {
    fn from(value: CanisterStatusType) -> (number: i32) {
        match value {
            CanisterStatusType::Unspecified => 0,
            CanisterStatusType::Running => 1,
            CanisterStatusType::Stopping => 2,
            CanisterStatusType::Stopped => 3,
        }
    }
}

impl FromSpecImpl<CanisterStatusType> for i32 {
    open spec fn obeys_from_spec() -> bool {
        true
    }

    open spec fn from_spec(value: CanisterStatusType) -> i32 {
        value.spec_value()
    }
}


impl CanisterStatusType {
    /// The `.proto` definition of `CanisterStatusType`: each variant has the wire number
    /// and the name given there, and exactly the numbers `0..=3` name a
    /// variant.
    pub proof fn lemma_proto_definition()
        ensures
            CanisterStatusType::Unspecified.spec_value() == 0,
            CanisterStatusType::Unspecified.str_name() == "CANISTER_STATUS_TYPE_UNSPECIFIED"@,
            CanisterStatusType::Running.spec_value() == 1,
            CanisterStatusType::Running.str_name() == "CANISTER_STATUS_TYPE_RUNNING"@,
            CanisterStatusType::Stopping.spec_value() == 2,
            CanisterStatusType::Stopping.str_name() == "CANISTER_STATUS_TYPE_STOPPING"@,
            CanisterStatusType::Stopped.spec_value() == 3,
            CanisterStatusType::Stopped.str_name() == "CANISTER_STATUS_TYPE_STOPPED"@,
            forall|value: i32| #[trigger] Self::spec_from_i32(value) is Some <==> 0 <= value <= 3,
    {
    }
}

} // verus!
