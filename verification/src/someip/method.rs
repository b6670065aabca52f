//! SOME/IP method identifiers.
use vstd::prelude::*;

verus! {

/// A SOME/IP method identifier; each variant stands for one fixed 16-bit id.
#[derive(Debug, Clone, Copy, PartialEq, Eq, Structural, Hash)]
pub enum SomeIPMethod {
    Unknown,
    GetDataSheet,
    SetCamExclusive,
    EraseCamExclusive,
    SetROI,
    GetROI,
    Subscribe,
    UnSubscribe,
    SubscribeAlarm,
    UnSubscribeAlarm,
    GetAlgROI,
    SetAlgROI,
    GetNetwork,
    SetNetwork,
    GetMedia,
    SetMedia,
    GetAlg,
    SetAlg,
    GetSystem,
    ResetFactory,
    GetConfig,
    SetConfig,
    FindOrOffer,
}

/// The 16-bit id that stands for `m` on the wire.
pub open spec fn method_code(m: SomeIPMethod) -> u16 {
    match m {
        SomeIPMethod::Unknown => 0x0000,
        SomeIPMethod::GetDataSheet => 0x0001,
        SomeIPMethod::SetCamExclusive => 0x0011,
        SomeIPMethod::EraseCamExclusive => 0x0019,
        SomeIPMethod::SetROI => 0x0101,
        SomeIPMethod::GetROI => 0x0103,
        SomeIPMethod::Subscribe => 0x0131,
        SomeIPMethod::UnSubscribe => 0x0132,
        SomeIPMethod::SubscribeAlarm => 0x0141,
        SomeIPMethod::UnSubscribeAlarm => 0x0142,
        SomeIPMethod::GetAlgROI => 0x0143,
        SomeIPMethod::SetAlgROI => 0x0144,
        SomeIPMethod::GetNetwork => 0x0191,
        SomeIPMethod::SetNetwork => 0x0192,
        SomeIPMethod::GetMedia => 0x0171,
        SomeIPMethod::SetMedia => 0x0172,
        SomeIPMethod::GetAlg => 0x0181,
        SomeIPMethod::SetAlg => 0x0182,
        SomeIPMethod::GetSystem => 0x0201,
        SomeIPMethod::ResetFactory => 0x0211,
        SomeIPMethod::GetConfig => 0x0150,
        SomeIPMethod::SetConfig => 0x0151,
        SomeIPMethod::FindOrOffer => 0x8100,
    }
}

/// The method that a 16-bit id stands for; ids that stand for none give `Unknown`.
pub open spec fn method_of_code(v: u16) -> SomeIPMethod {
    if v == 0x0001 {
        SomeIPMethod::GetDataSheet
    } else if v == 0x0011 {
        SomeIPMethod::SetCamExclusive
    } else if v == 0x0019 {
        SomeIPMethod::EraseCamExclusive
    } else if v == 0x0101 {
        SomeIPMethod::SetROI
    } else if v == 0x0103 {
        SomeIPMethod::GetROI
    } else if v == 0x0131 {
        SomeIPMethod::Subscribe
    } else if v == 0x0132 {
        SomeIPMethod::UnSubscribe
    } else if v == 0x0141 {
        SomeIPMethod::SubscribeAlarm
    } else if v == 0x0142 {
        SomeIPMethod::UnSubscribeAlarm
    } else if v == 0x0143 {
        SomeIPMethod::GetAlgROI
    } else if v == 0x0144 {
        SomeIPMethod::SetAlgROI
    } else if v == 0x0191 {
        SomeIPMethod::GetNetwork
    } else if v == 0x0192 {
        SomeIPMethod::SetNetwork
    } else if v == 0x0171 {
        SomeIPMethod::GetMedia
    } else if v == 0x0172 {
        SomeIPMethod::SetMedia
    } else if v == 0x0181 {
        SomeIPMethod::GetAlg
    } else if v == 0x0182 {
        SomeIPMethod::SetAlg
    } else if v == 0x0201 {
        SomeIPMethod::GetSystem
    } else if v == 0x0211 {
        SomeIPMethod::ResetFactory
    } else if v == 0x0150 {
        SomeIPMethod::GetConfig
    } else if v == 0x0151 {
        SomeIPMethod::SetConfig
    } else if v == 0x8100 {
        SomeIPMethod::FindOrOffer
    } else {
        SomeIPMethod::Unknown
    }
}

/// The methods that are requests without a payload.
pub open spec fn is_get_method(m: SomeIPMethod) -> bool {
    m == SomeIPMethod::GetDataSheet || m == SomeIPMethod::GetMedia || m == SomeIPMethod::GetAlgROI
        || m == SomeIPMethod::GetROI || m == SomeIPMethod::GetNetwork || m == SomeIPMethod::GetAlg
        || m == SomeIPMethod::GetSystem || m == SomeIPMethod::GetConfig || m
        == SomeIPMethod::UnSubscribe
}

impl SomeIPMethod {
    /// Every method, in the order of their declaration.
    pub fn all() -> (r: Vec<SomeIPMethod>)
        ensures
            r.len() == 23,
            forall|m: SomeIPMethod| #[trigger] r@.contains(m),
    {
        let r = vec![
            SomeIPMethod::Unknown,
            SomeIPMethod::GetDataSheet,
            SomeIPMethod::SetCamExclusive,
            SomeIPMethod::EraseCamExclusive,
            SomeIPMethod::SetROI,
            SomeIPMethod::GetROI,
            SomeIPMethod::Subscribe,
            SomeIPMethod::UnSubscribe,
            SomeIPMethod::SubscribeAlarm,
            SomeIPMethod::UnSubscribeAlarm,
            SomeIPMethod::GetAlgROI,
            SomeIPMethod::SetAlgROI,
            SomeIPMethod::GetNetwork,
            SomeIPMethod::SetNetwork,
            SomeIPMethod::GetMedia,
            SomeIPMethod::SetMedia,
            SomeIPMethod::GetAlg,
            SomeIPMethod::SetAlg,
            SomeIPMethod::GetSystem,
            SomeIPMethod::ResetFactory,
            SomeIPMethod::GetConfig,
            SomeIPMethod::SetConfig,
            SomeIPMethod::FindOrOffer,
        ];
        assert forall|m: SomeIPMethod| #[trigger] r@.contains(m) by {
            match m {
                SomeIPMethod::Unknown => assert(r@[0] == m),
                SomeIPMethod::GetDataSheet => assert(r@[1] == m),
                SomeIPMethod::SetCamExclusive => assert(r@[2] == m),
                SomeIPMethod::EraseCamExclusive => assert(r@[3] == m),
                SomeIPMethod::SetROI => assert(r@[4] == m),
                SomeIPMethod::GetROI => assert(r@[5] == m),
                SomeIPMethod::Subscribe => assert(r@[6] == m),
                SomeIPMethod::UnSubscribe => assert(r@[7] == m),
                SomeIPMethod::SubscribeAlarm => assert(r@[8] == m),
                SomeIPMethod::UnSubscribeAlarm => assert(r@[9] == m),
                SomeIPMethod::GetAlgROI => assert(r@[10] == m),
                SomeIPMethod::SetAlgROI => assert(r@[11] == m),
                SomeIPMethod::GetNetwork => assert(r@[12] == m),
                SomeIPMethod::SetNetwork => assert(r@[13] == m),
                SomeIPMethod::GetMedia => assert(r@[14] == m),
                SomeIPMethod::SetMedia => assert(r@[15] == m),
                SomeIPMethod::GetAlg => assert(r@[16] == m),
                SomeIPMethod::SetAlg => assert(r@[17] == m),
                SomeIPMethod::GetSystem => assert(r@[18] == m),
                SomeIPMethod::ResetFactory => assert(r@[19] == m),
                SomeIPMethod::GetConfig => assert(r@[20] == m),
                SomeIPMethod::SetConfig => assert(r@[21] == m),
                SomeIPMethod::FindOrOffer => assert(r@[22] == m),
            }
        }
        r
    }

    /// Whether the method is a request that carries no payload.
    pub fn is_get_request(&self) -> (r: bool)
        ensures
            r == is_get_method(*self),
    {
        match self {
            SomeIPMethod::GetDataSheet | SomeIPMethod::GetMedia | SomeIPMethod::GetAlgROI
            | SomeIPMethod::GetROI | SomeIPMethod::GetNetwork | SomeIPMethod::GetAlg
            | SomeIPMethod::GetSystem | SomeIPMethod::GetConfig | SomeIPMethod::UnSubscribe => true,
            _ => false,
        }
    }

    /// Whether the method is a request that carries a payload.
    pub fn has_payload(&self) -> (r: bool)
        ensures
            r == (!is_get_method(*self) && *self != SomeIPMethod::Unknown),
    {
        !self.is_get_request() && !matches!(self, SomeIPMethod::Unknown)
    }

    /// The 16-bit id of the method.
    pub fn code(&self) -> (r: u16)
        ensures
            r == method_code(*self),
    {
        match self {
            SomeIPMethod::Unknown => 0x0000,
            SomeIPMethod::GetDataSheet => 0x0001,
            SomeIPMethod::SetCamExclusive => 0x0011,
            SomeIPMethod::EraseCamExclusive => 0x0019,
            SomeIPMethod::SetROI => 0x0101,
            SomeIPMethod::GetROI => 0x0103,
            SomeIPMethod::Subscribe => 0x0131,
            SomeIPMethod::UnSubscribe => 0x0132,
            SomeIPMethod::SubscribeAlarm => 0x0141,
            SomeIPMethod::UnSubscribeAlarm => 0x0142,
            SomeIPMethod::GetAlgROI => 0x0143,
            SomeIPMethod::SetAlgROI => 0x0144,
            SomeIPMethod::GetNetwork => 0x0191,
            SomeIPMethod::SetNetwork => 0x0192,
            SomeIPMethod::GetMedia => 0x0171,
            SomeIPMethod::SetMedia => 0x0172,
            SomeIPMethod::GetAlg => 0x0181,
            SomeIPMethod::SetAlg => 0x0182,
            SomeIPMethod::GetSystem => 0x0201,
            SomeIPMethod::ResetFactory => 0x0211,
            SomeIPMethod::GetConfig => 0x0150,
            SomeIPMethod::SetConfig => 0x0151,
            SomeIPMethod::FindOrOffer => 0x8100,
        }
    }

    /// The method that a 16-bit id stands for (`Unknown` for any other id).
    pub fn from_code(value: u16) -> (r: SomeIPMethod)
        ensures
            r == method_of_code(value),
    {
        match value {
            0x0001 => SomeIPMethod::GetDataSheet,
            0x0011 => SomeIPMethod::SetCamExclusive,
            0x0019 => SomeIPMethod::EraseCamExclusive,
            0x0101 => SomeIPMethod::SetROI,
            0x0103 => SomeIPMethod::GetROI,
            0x0131 => SomeIPMethod::Subscribe,
            0x0132 => SomeIPMethod::UnSubscribe,
            0x0141 => SomeIPMethod::SubscribeAlarm,
            0x0142 => SomeIPMethod::UnSubscribeAlarm,
            0x0143 => SomeIPMethod::GetAlgROI,
            0x0144 => SomeIPMethod::SetAlgROI,
            0x0191 => SomeIPMethod::GetNetwork,
            0x0192 => SomeIPMethod::SetNetwork,
            0x0171 => SomeIPMethod::GetMedia,
            0x0172 => SomeIPMethod::SetMedia,
            0x0181 => SomeIPMethod::GetAlg,
            0x0182 => SomeIPMethod::SetAlg,
            0x0201 => SomeIPMethod::GetSystem,
            0x0211 => SomeIPMethod::ResetFactory,
            0x0150 => SomeIPMethod::GetConfig,
            0x0151 => SomeIPMethod::SetConfig,
            0x8100 => SomeIPMethod::FindOrOffer,
            _ => SomeIPMethod::Unknown,
        }
    }
}

impl From<u16> for SomeIPMethod {
    fn from(value: u16) -> (r: SomeIPMethod) {
        SomeIPMethod::from_code(value)
    }
}

impl vstd::std_specs::convert::FromSpecImpl<u16> for SomeIPMethod {
    open spec fn obeys_from_spec() -> bool {
        true
    }

    open spec fn from_spec(v: u16) -> SomeIPMethod {
        method_of_code(v)
    }
}

impl From<SomeIPMethod> for u16 {
    fn from(method: SomeIPMethod) -> (r: u16) {
        method.code()
    }
}

impl vstd::std_specs::convert::FromSpecImpl<SomeIPMethod> for u16 {
    open spec fn obeys_from_spec() -> bool {
        true
    }

    open spec fn from_spec(m: SomeIPMethod) -> u16 {
        method_code(m)
    }
}

impl Default for SomeIPMethod {
    fn default() -> (r: SomeIPMethod)
        ensures
            r == SomeIPMethod::Unknown,
    {
        SomeIPMethod::Unknown
    }
}

/// Reading back the id of a method gives the method again.
pub proof fn lemma_method_code_roundtrip(m: SomeIPMethod)
    ensures
        method_of_code(method_code(m)) == m,
{
}

} // verus!
