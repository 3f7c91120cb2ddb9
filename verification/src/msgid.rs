use vstd::prelude::*;

verus! {

/// Identifier of every protocol message of the gateway, as registered in the
/// message registry.
#[derive(Clone, Copy, Debug, PartialEq, Eq, Structural, Hash, PartialOrd, Ord)]
pub enum MsgId {
    Reserved,
    CsPing,
    ScPing,
    CsLogin,
    ScLogin,
    CsFastLogin,
    ScFastLogin,
    CsEcho,
    ScEcho,
}

/// The numeric value of each identifier.
pub open spec fn msg_id_value(id: MsgId) -> i32 {
    match id {
        MsgId::Reserved => 0,
        MsgId::CsPing => 1,
        MsgId::ScPing => 2,
        MsgId::CsLogin => 101,
        MsgId::ScLogin => 102,
        MsgId::CsFastLogin => 103,
        MsgId::ScFastLogin => 104,
        MsgId::CsEcho => 201,
        MsgId::ScEcho => 202,
    }
}

/// The identifier with a given numeric value, if any.
pub open spec fn msg_id_from_value(v: i32) -> Option<MsgId> {
    if v == 0 {
        Some(MsgId::Reserved)
    } else if v == 1 {
        Some(MsgId::CsPing)
    } else if v == 2 {
        Some(MsgId::ScPing)
    } else if v == 101 {
        Some(MsgId::CsLogin)
    } else if v == 102 {
        Some(MsgId::ScLogin)
    } else if v == 103 {
        Some(MsgId::CsFastLogin)
    } else if v == 104 {
        Some(MsgId::ScFastLogin)
    } else if v == 201 {
        Some(MsgId::CsEcho)
    } else if v == 202 {
        Some(MsgId::ScEcho)
    } else {
        None
    }
}

/// The name of each identifier in the protobuf definition.
pub open spec fn msg_id_name(id: MsgId) -> Seq<char> {
    match id {
        MsgId::Reserved => "__RESERVED"@,
        MsgId::CsPing => "CsPing"@,
        MsgId::ScPing => "ScPing"@,
        MsgId::CsLogin => "CsLogin"@,
        MsgId::ScLogin => "ScLogin"@,
        MsgId::CsFastLogin => "CsFastLogin"@,
        MsgId::ScFastLogin => "ScFastLogin"@,
        MsgId::CsEcho => "CsEcho"@,
        MsgId::ScEcho => "ScEcho"@,
    }
}

impl MsgId {
    /// String value of the enum field names used in the ProtoBuf definition.
    pub fn as_str_name(&self) -> (r: &'static str)
        ensures
            r@ == msg_id_name(*self),
    {
        match self {
            MsgId::Reserved => "__RESERVED",
            MsgId::CsPing => "CsPing",
            MsgId::ScPing => "ScPing",
            MsgId::CsLogin => "CsLogin",
            MsgId::ScLogin => "ScLogin",
            MsgId::CsFastLogin => "CsFastLogin",
            MsgId::ScFastLogin => "ScFastLogin",
            MsgId::CsEcho => "CsEcho",
            MsgId::ScEcho => "ScEcho",
        }
    }

    /// The numeric value of this identifier.
    pub fn value(&self) -> (r: i32)
        ensures
            r == msg_id_value(*self),
    {
        match self {
            MsgId::Reserved => 0,
            MsgId::CsPing => 1,
            MsgId::ScPing => 2,
            MsgId::CsLogin => 101,
            MsgId::ScLogin => 102,
            MsgId::CsFastLogin => 103,
            MsgId::ScFastLogin => 104,
            MsgId::CsEcho => 201,
            MsgId::ScEcho => 202,
        }
    }

    /// The identifier with numeric value `v`, or `None` when no message has it.
    pub fn from_i32(v: i32) -> (r: Option<MsgId>)
        ensures
            r == msg_id_from_value(v),
    {
        if v == 0 {
            Some(MsgId::Reserved)
        } else if v == 1 {
            Some(MsgId::CsPing)
        } else if v == 2 {
            Some(MsgId::ScPing)
        } else if v == 101 {
            Some(MsgId::CsLogin)
        } else if v == 102 {
            Some(MsgId::ScLogin)
        } else if v == 103 {
            Some(MsgId::CsFastLogin)
        } else if v == 104 {
            Some(MsgId::ScFastLogin)
        } else if v == 201 {
            Some(MsgId::CsEcho)
        } else if v == 202 {
            Some(MsgId::ScEcho)
        } else {
            None
        }
    }
}

/// Every identifier is found again from its numeric value.
pub proof fn lemma_msg_id_value_roundtrip(id: MsgId)
    ensures
        msg_id_from_value(msg_id_value(id)) == Some(id),
{
}

/// Distinct identifiers have distinct numeric values and distinct names.
pub proof fn lemma_msg_id_injective(a: MsgId, b: MsgId)
    requires
        a != b,
    ensures
        msg_id_value(a) != msg_id_value(b),
        msg_id_name(a) != msg_id_name(b),
{
    reveal_strlit("__RESERVED");
    reveal_strlit("CsPing");
    reveal_strlit("ScPing");
    reveal_strlit("CsLogin");
    reveal_strlit("ScLogin");
    reveal_strlit("CsFastLogin");
    reveal_strlit("ScFastLogin");
    reveal_strlit("CsEcho");
    reveal_strlit("ScEcho");
    let (na, nb) = (msg_id_name(a), msg_id_name(b));
    assert(na.len() != nb.len() || na[0] != nb[0] || na[2] != nb[2]);
}

} // verus!
