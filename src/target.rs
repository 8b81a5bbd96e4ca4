use vstd::prelude::*;

use crate::text::{lemma_split_on_nonempty, same_text, split_on, split_text, texts};

verus! {

/// The type that a target's value is expected to carry.
#[derive(Clone, Copy, Debug, PartialEq, Eq, Structural)]
pub enum ValueType {
    Integer,
    Counter32,
    Counter64,
    Unsigned32,
    Opaque,
    OctetString,
    /// Accept whichever supported type the agent answers with.
    Unknown,
}

/// The value type that a type name selects; any name but the six specific ones means `Unknown`.
pub open spec fn value_type_named(s: Seq<char>) -> ValueType {
    if s == "Integer"@ {
        ValueType::Integer
    } else if s == "Counter32"@ {
        ValueType::Counter32
    } else if s == "Counter64"@ {
        ValueType::Counter64
    } else if s == "Unsigned32"@ {
        ValueType::Unsigned32
    } else if s == "Opaque"@ {
        ValueType::Opaque
    } else if s == "OctetString"@ {
        ValueType::OctetString
    } else {
        ValueType::Unknown
    }
}

impl ValueType {
    /// Reads a type name.
    pub fn from_name(s: &str) -> (r: ValueType)
        ensures
            r == value_type_named(s@),
    {
        if same_text(s, "Integer") {
            ValueType::Integer
        } else if same_text(s, "Counter32") {
            ValueType::Counter32
        } else if same_text(s, "Counter64") {
            ValueType::Counter64
        } else if same_text(s, "Unsigned32") {
            ValueType::Unsigned32
        } else if same_text(s, "Opaque") {
            ValueType::Opaque
        } else if same_text(s, "OctetString") {
            ValueType::OctetString
        } else {
            ValueType::Unknown
        }
    }
}

/// One value to query: a display name, a dotted OID and the expected value type.
pub struct Target {
    name: String,
    oid: String,
    vtype: ValueType,
}

/// What a target holds.
pub struct TargetView {
    pub name: Seq<char>,
    pub oid: Seq<char>,
    pub vtype: ValueType,
}

impl View for Target {
    type V = TargetView;

    closed spec fn view(&self) -> TargetView {
        TargetView { name: self.name@, oid: self.oid@, vtype: self.vtype }
    }
}

pub open spec fn target_view(name: Seq<char>, oid: Seq<char>, vtype: ValueType) -> TargetView {
    TargetView { name, oid, vtype }
}

/// The views of a list of targets.
pub open spec fn target_views(v: Seq<Target>) -> Seq<TargetView> {
    v.map_values(|t: Target| t@)
}

impl Target {
    /// A target whose expected type is given by its name (see `value_type_named`).
    pub fn new(name: &str, oid: &str, vtype: &str) -> (r: Target)
        ensures
            r@ == target_view(name@, oid@, value_type_named(vtype@)),
    {
        Target::typed(name, oid, ValueType::from_name(vtype))
    }

    /// A target with the given expected type.
    pub fn typed(name: &str, oid: &str, vtype: ValueType) -> (r: Target)
        ensures
            r@ == target_view(name@, oid@, vtype),
    {
        Target { name: name.to_owned(), oid: oid.to_owned(), vtype }
    }

    pub fn name(&self) -> (r: &str)
        ensures
            r@ == self@.name,
    {
        self.name.as_str()
    }

    pub fn oid(&self) -> (r: &str)
        ensures
            r@ == self@.oid,
    {
        self.oid.as_str()
    }

    pub fn vtype(&self) -> (r: ValueType)
        ensures
            r == self@.vtype,
    {
        self.vtype
    }
}

/// Why no target list could be made.
#[derive(Debug)]
pub enum TargetError {
    /// The nickname names no metric group.
    UnsupportedMetric(String),
    /// The custom OID list holds no entry.
    EmptyOidList,
}

/// The built-in metric groups: for each nickname, its targets in order; empty for any other name.
pub open spec fn registry(nickname: Seq<char>) -> Seq<TargetView> {
    if nickname == "desc"@ {
        seq![
            target_view("description"@, "1.3.6.1.2.1.1.1.0"@, ValueType::OctetString),
        ]
    } else if nickname == "ss"@ {
        seq![
            target_view("ssSwapIn"@, "1.3.6.1.4.1.2021.11.3.0"@, ValueType::Integer),
            target_view("ssSwapOut"@, "1.3.6.1.4.1.2021.11.4.0"@, ValueType::Integer),
            target_view("ssIOSent"@, "1.3.6.1.4.1.2021.11.5.0"@, ValueType::Integer),
            target_view("ssIOReceive"@, "1.3.6.1.4.1.2021.11.6.0"@, ValueType::Integer),
            target_view("ssSysInterrupts"@, "1.3.6.1.4.1.2021.11.7.0"@, ValueType::Integer),
            target_view("ssSysContext"@, "1.3.6.1.4.1.2021.11.8.0"@, ValueType::Integer),
            target_view("ssCpuUser"@, "1.3.6.1.4.1.2021.11.9.0"@, ValueType::Unknown),
            target_view("ssCpuSystem"@, "1.3.6.1.4.1.2021.11.10.0"@, ValueType::Unknown),
            target_view("ssCpuIdle"@, "1.3.6.1.4.1.2021.11.11.0"@, ValueType::Unknown),
        ]
    } else if nickname == "la"@ {
        seq![
            target_view("laLoad.1"@, "1.3.6.1.4.1.2021.10.1.3.1.0"@, ValueType::OctetString),
            target_view("laLoad.2"@, "1.3.6.1.4.1.2021.10.1.3.2.0"@, ValueType::OctetString),
            target_view("laLoad.3"@, "1.3.6.1.4.1.2021.10.1.3.3.0"@, ValueType::OctetString),
        ]
    } else if nickname == "dsk"@ {
        seq![
            target_view("dskPath"@, "1.3.6.1.4.1.2021.9.1.2.0"@, ValueType::OctetString),
            target_view("dskDevice"@, "1.3.6.1.4.1.2021.9.1.3.0"@, ValueType::OctetString),
            target_view("dskTotal"@, "1.3.6.1.4.1.2021.9.1.6.0"@, ValueType::Integer),
            target_view("dskAvail"@, "1.3.6.1.4.1.2021.9.1.7.0"@, ValueType::Integer),
            target_view("dskUsed"@, "1.3.6.1.4.1.2021.9.1.8.0"@, ValueType::Integer),
            target_view("dskPercent"@, "1.3.6.1.4.1.2021.9.1.9.0"@, ValueType::Integer),
            target_view("dskPercentNode"@, "1.3.6.1.4.1.2021.9.1.10.0"@, ValueType::Integer),
        ]
    } else if nickname == "mem"@ {
        seq![
            target_view("memTotalSwap"@, "1.3.6.1.4.1.2021.4.3.0"@, ValueType::Integer),
            target_view("memAvailSwap"@, "1.3.6.1.4.1.2021.4.4.0"@, ValueType::Integer),
            target_view("memTotalReal"@, "1.3.6.1.4.1.2021.4.5.0"@, ValueType::Integer),
            target_view("memAvailReal"@, "1.3.6.1.4.1.2021.4.6.0"@, ValueType::Integer),
            target_view("memTotalFree"@, "1.3.6.1.4.1.2021.4.11.0"@, ValueType::Integer),
            target_view("memShared"@, "1.3.6.1.4.1.2021.4.13.0"@, ValueType::Integer),
            target_view("memBuffer"@, "1.3.6.1.4.1.2021.4.14.0"@, ValueType::Integer),
            target_view("memCached"@, "1.3.6.1.4.1.2021.4.15.0"@, ValueType::Integer),
        ]
    } else if nickname == "if"@ {
        seq![
            target_view("ifInOctets"@, "1.3.6.1.2.1.2.2.1.10.1"@, ValueType::Counter32),
        ]
    } else {
        Seq::empty()
    }
}


/// The targets of a built-in metric group.
pub fn get_targets_from_nickname(nickname: &str) -> (r: Result<Vec<Target>, TargetError>)
    ensures
        registry(nickname@).len() > 0 ==> r is Ok && target_views(r->Ok_0@) == registry(nickname@),
        registry(nickname@).len() == 0 ==> r is Err && r->Err_0 is UnsupportedMetric
            && r->Err_0->UnsupportedMetric_0@ == nickname@,
{
    let mut targets: Vec<Target> = Vec::new();
    if same_text(nickname, "desc") {
        targets.push(Target::typed("description", "1.3.6.1.2.1.1.1.0", ValueType::OctetString));
        assert(target_views(targets@) =~= registry(nickname@));
    } else if same_text(nickname, "ss") {
        targets.push(Target::typed("ssSwapIn", "1.3.6.1.4.1.2021.11.3.0", ValueType::Integer));
        targets.push(Target::typed("ssSwapOut", "1.3.6.1.4.1.2021.11.4.0", ValueType::Integer));
        targets.push(Target::typed("ssIOSent", "1.3.6.1.4.1.2021.11.5.0", ValueType::Integer));
        targets.push(Target::typed("ssIOReceive", "1.3.6.1.4.1.2021.11.6.0", ValueType::Integer));
        targets.push(Target::typed("ssSysInterrupts", "1.3.6.1.4.1.2021.11.7.0", ValueType::Integer));
        targets.push(Target::typed("ssSysContext", "1.3.6.1.4.1.2021.11.8.0", ValueType::Integer));
        targets.push(Target::typed("ssCpuUser", "1.3.6.1.4.1.2021.11.9.0", ValueType::Unknown));
        targets.push(Target::typed("ssCpuSystem", "1.3.6.1.4.1.2021.11.10.0", ValueType::Unknown));
        targets.push(Target::typed("ssCpuIdle", "1.3.6.1.4.1.2021.11.11.0", ValueType::Unknown));
        assert(target_views(targets@) =~= registry(nickname@));
    } else if same_text(nickname, "la") {
        targets.push(Target::typed("laLoad.1", "1.3.6.1.4.1.2021.10.1.3.1.0", ValueType::OctetString));
        targets.push(Target::typed("laLoad.2", "1.3.6.1.4.1.2021.10.1.3.2.0", ValueType::OctetString));
        targets.push(Target::typed("laLoad.3", "1.3.6.1.4.1.2021.10.1.3.3.0", ValueType::OctetString));
        assert(target_views(targets@) =~= registry(nickname@));
    } else if same_text(nickname, "dsk") {
        targets.push(Target::typed("dskPath", "1.3.6.1.4.1.2021.9.1.2.0", ValueType::OctetString));
        targets.push(Target::typed("dskDevice", "1.3.6.1.4.1.2021.9.1.3.0", ValueType::OctetString));
        targets.push(Target::typed("dskTotal", "1.3.6.1.4.1.2021.9.1.6.0", ValueType::Integer));
        targets.push(Target::typed("dskAvail", "1.3.6.1.4.1.2021.9.1.7.0", ValueType::Integer));
        targets.push(Target::typed("dskUsed", "1.3.6.1.4.1.2021.9.1.8.0", ValueType::Integer));
        targets.push(Target::typed("dskPercent", "1.3.6.1.4.1.2021.9.1.9.0", ValueType::Integer));
        targets.push(Target::typed("dskPercentNode", "1.3.6.1.4.1.2021.9.1.10.0", ValueType::Integer));
        assert(target_views(targets@) =~= registry(nickname@));
    } else if same_text(nickname, "mem") {
        targets.push(Target::typed("memTotalSwap", "1.3.6.1.4.1.2021.4.3.0", ValueType::Integer));
        targets.push(Target::typed("memAvailSwap", "1.3.6.1.4.1.2021.4.4.0", ValueType::Integer));
        targets.push(Target::typed("memTotalReal", "1.3.6.1.4.1.2021.4.5.0", ValueType::Integer));
        targets.push(Target::typed("memAvailReal", "1.3.6.1.4.1.2021.4.6.0", ValueType::Integer));
        targets.push(Target::typed("memTotalFree", "1.3.6.1.4.1.2021.4.11.0", ValueType::Integer));
        targets.push(Target::typed("memShared", "1.3.6.1.4.1.2021.4.13.0", ValueType::Integer));
        targets.push(Target::typed("memBuffer", "1.3.6.1.4.1.2021.4.14.0", ValueType::Integer));
        targets.push(Target::typed("memCached", "1.3.6.1.4.1.2021.4.15.0", ValueType::Integer));
        assert(target_views(targets@) =~= registry(nickname@));
    } else if same_text(nickname, "if") {
        targets.push(Target::typed("ifInOctets", "1.3.6.1.2.1.2.2.1.10.1", ValueType::Counter32));
        assert(target_views(targets@) =~= registry(nickname@));
    } else {
        assert(target_views(targets@) =~= registry(nickname@));
    }
    if targets.len() == 0 {
        Err(TargetError::UnsupportedMetric(nickname.to_owned()))
    } else {
        Ok(targets)
    }
}

/// The entries of a custom OID list: its comma-separated pieces, none for an empty list.
pub open spec fn oid_entries(s: Seq<char>) -> Seq<Seq<char>> {
    if s.len() == 0 {
        Seq::empty()
    } else {
        split_on(s, ',')
    }
}

/// The target of one entry: `OID:NAME` when the entry splits at `:` into exactly two
/// parts, otherwise its first part serves as both OID and name.
pub open spec fn entry_target(e: Seq<char>) -> TargetView {
    let parts = split_on(e, ':');
    if parts.len() == 2 {
        target_view(parts[1], parts[0], ValueType::Unknown)
    } else {
        target_view(parts[0], parts[0], ValueType::Unknown)
    }
}

/// The targets of a custom OID list, in the order of its entries.
pub open spec fn oid_list_targets(s: Seq<char>) -> Seq<TargetView> {
    oid_entries(s).map_values(|e: Seq<char>| entry_target(e))
}

/// Targets from a comma-separated list of `OID[:NAME]` entries, each expecting any type.
pub fn create_targets(oids: &str) -> (r: Result<Vec<Target>, TargetError>)
    ensures
        r is Err <==> oids@.len() == 0,
        r is Err ==> r->Err_0 is EmptyOidList,
        r is Ok ==> target_views(r->Ok_0@) == oid_list_targets(oids@),
{
    if oids.is_empty() {
        return Err(TargetError::EmptyOidList);
    }
    let entries = split_text(oids, ',');
    let mut targets: Vec<Target> = Vec::new();
    let mut j: usize = 0;
    while j < entries.len()
        invariant
            texts(entries@) == oid_entries(oids@),
            j <= entries@.len(),
            target_views(targets@) == oid_list_targets(oids@).subrange(0, j as int),
        decreases entries@.len() - j,
    {
        let entry = entries[j].as_str();
        let parts = split_text(entry, ':');
        proof {
            lemma_split_on_nonempty(entry@, ':');
            assert(entry@ == oid_entries(oids@)[j as int]);
            assert(texts(parts@)[0] == parts@[0]@);
        }
        let t = if parts.len() == 2 {
            assert(texts(parts@)[1] == parts@[1]@);
            Target::typed(parts[1].as_str(), parts[0].as_str(), ValueType::Unknown)
        } else {
            Target::typed(parts[0].as_str(), parts[0].as_str(), ValueType::Unknown)
        };
        let ghost before = targets@;
        targets.push(t);
        assert(target_views(targets@) =~= target_views(before).push(t@));
        assert(oid_list_targets(oids@).subrange(0, j + 1) =~= oid_list_targets(oids@).subrange(
            0,
            j as int,
        ).push(entry_target(entry@)));
        j = j + 1;
    }
    assert(oid_list_targets(oids@).subrange(0, j as int) =~= oid_list_targets(oids@));
    Ok(targets)
}

} // verus!
