//! Bounds on the resources that a region of a circuit takes.

use vstd::prelude::*;
use crate::codec::{
    Codec, DecodeError, DeepCopy, ErrorKind, ErrorView, PathStep, put, put_spec, required,
    required_spec,
};
use crate::json::{Fields, group_field, Json, JsonView};
use crate::optype::OpType;

verus! {

/// A least and a greatest value of some resource.
#[derive(Clone, Copy, Debug, PartialEq, Eq, Hash)]
pub struct ResourceBounds {
    /// The least value.
    pub min: u32,
    /// The greatest value.
    pub max: u32,
}

impl DeepView for ResourceBounds {
    type V = ResourceBounds;

    open spec fn deep_view(&self) -> ResourceBounds {
        *self
    }
}

/// An object with the fields `min` and `max`.
impl Codec for ResourceBounds {
    #[verifier::opaque]
    open spec fn decode_spec(j: JsonView) -> Result<ResourceBounds, ErrorView> {
        match required_spec::<u32>(j, "min") {
            Err(e) => Err(e),
            Ok(min) => match required_spec::<u32>(j, "max") {
                Err(e) => Err(e),
                Ok(max) => Ok(ResourceBounds { min, max }),
            },
        }
    }

    #[verifier::opaque]
    open spec fn encode_spec(v: ResourceBounds) -> JsonView {
        let e = Seq::empty();
        let e = put_spec::<u32>(e, "min", v.min);
        let e = put_spec::<u32>(e, "max", v.max);
        JsonView::Object(e)
    }

    open spec fn valid(v: ResourceBounds) -> bool {
        true
    }

    fn decode(j: &Json) -> (r: Result<ResourceBounds, DecodeError>) {
        proof {
            reveal(<ResourceBounds as Codec>::decode_spec);
        }
        let min: u32 = match required::<u32>(j, "min") {
            Ok(v) => v,
            Err(e) => {
                return Err(e);
            },
        };
        let max: u32 = match required::<u32>(j, "max") {
            Ok(v) => v,
            Err(e) => {
                return Err(e);
            },
        };
        let r = ResourceBounds { min, max };
        proof {
            Self::lemma_round_trip(r);
        }
        Ok(r)
    }

    fn encode(&self) -> (j: Json) {
        proof {
            reveal(<ResourceBounds as Codec>::encode_spec);
        }
        let mut fields = Fields::new();
        put::<u32>(&mut fields, "min", &self.min);
        put::<u32>(&mut fields, "max", &self.max);
        fields.finish()
    }

    proof fn lemma_round_trip(v: ResourceBounds) {
        reveal(<ResourceBounds as Codec>::decode_spec);
        reveal(<ResourceBounds as Codec>::encode_spec);
        broadcast use group_field;

        reveal_strlit("min");
        reveal_strlit("max");
        assert("min"@.len() == 3 && "min"@[1] == 'i');
        assert("max"@.len() == 3 && "max"@[1] == 'a');
        u32::lemma_round_trip(v.min);
        u32::lemma_round_trip(v.max);
    }
}

impl DeepCopy for ResourceBounds {
    fn deep_copy(&self) -> (r: ResourceBounds) {
        ResourceBounds {
            min: self.min.deep_copy(),
            max: self.max.deep_copy(),
        }
    }
}

/// Bounds for each of some operation types. No type occurs twice.
#[derive(Clone, Debug, PartialEq)]
pub struct OpTypeBounds {
    /// The types with their bounds, in the order in which they were added.
    pub entries: Vec<(OpType, ResourceBounds)>,
}

impl DeepView for OpTypeBounds {
    type V = Seq<(OpType, ResourceBounds)>;

    open spec fn deep_view(&self) -> Seq<(OpType, ResourceBounds)> {
        self.entries@
    }
}

/// Where a table holds a type, if it holds it.
pub open spec fn position(t: Seq<(OpType, ResourceBounds)>, k: OpType) -> Option<int>
    decreases t.len(),
{
    if t.len() == 0 {
        None
    } else {
        match position(t.drop_last(), k) {
            Some(i) => Some(i),
            None => if t.last().0 == k {
                Some(t.len() - 1)
            } else {
                None
            },
        }
    }
}

/// A table after a type was given bounds: in place where the table held the
/// type, at the end where not.
pub open spec fn upsert(t: Seq<(OpType, ResourceBounds)>, k: OpType, b: ResourceBounds) -> Seq<
    (OpType, ResourceBounds),
> {
    match position(t, k) {
        Some(i) => t.update(i, (k, b)),
        None => t.push((k, b)),
    }
}

/// Whether no type occurs twice in a table.
pub open spec fn distinct_keys(t: Seq<(OpType, ResourceBounds)>) -> bool {
    forall|i: int, j: int| 0 <= i < j < t.len() ==> t[i].0 != t[j].0
}

/// The table that the entries of an object decode to: each entry in turn
/// gives bounds to the type that its key names.
pub open spec fn table_of(entries: Seq<(Seq<char>, JsonView)>) -> Result<
    Seq<(OpType, ResourceBounds)>,
    ErrorView,
>
    decreases entries.len(),
{
    if entries.len() == 0 {
        Ok(Seq::empty())
    } else {
        match table_of(entries.drop_last()) {
            Err(e) => Err(e),
            Ok(t) => {
                let step = PathStep::Index((entries.len() - 1) as usize);
                match OpType::from_wire_name(entries.last().0) {
                    None => Err(ErrorView::here(ErrorKind::UnknownVariant).under(step)),
                    Some(k) => match ResourceBounds::decode_spec(entries.last().1) {
                        Err(e) => Err(e.under(step)),
                        Ok(b) => Ok(upsert(t, k, b)),
                    },
                }
            },
        }
    }
}

/// The entries that a table encodes to: one for each type, under its name.
pub open spec fn table_entries(t: Seq<(OpType, ResourceBounds)>) -> Seq<(Seq<char>, JsonView)> {
    t.map_values(|p: (OpType, ResourceBounds)| (p.0.name(), ResourceBounds::encode_spec(p.1)))
}

/// A position that a table gives for a type holds the type, and nothing
/// before it does.
pub proof fn lemma_position(t: Seq<(OpType, ResourceBounds)>, k: OpType)
    ensures
        match position(t, k) {
            Some(i) => 0 <= i < t.len() && t[i].0 == k && forall|a: int|
                0 <= a < i ==> (#[trigger] t[a]).0 != k,
            None => forall|a: int| 0 <= a < t.len() ==> (#[trigger] t[a]).0 != k,
        },
    decreases t.len(),
{
    if t.len() > 0 {
        lemma_position(t.drop_last(), k);
        assert forall|a: int| 0 <= a < t.len() - 1 implies t[a] == t.drop_last()[a] by {}
    }
}

/// Giving bounds to a type keeps a table free of repeats.
pub proof fn lemma_upsert_distinct(t: Seq<(OpType, ResourceBounds)>, k: OpType, b: ResourceBounds)
    requires
        distinct_keys(t),
    ensures
        distinct_keys(upsert(t, k, b)),
{
    lemma_position(t, k);
}

/// Entries that were refused among the first are refused as a whole.
pub proof fn lemma_table_prefix_err(entries: Seq<(Seq<char>, JsonView)>, n: int)
    requires
        0 <= n <= entries.len(),
        table_of(entries.take(n)) is Err,
    ensures
        table_of(entries) == table_of(entries.take(n)),
    decreases entries.len(),
{
    if n == entries.len() {
        assert(entries.take(n) =~= entries);
    } else {
        assert(entries.drop_last().take(n) =~= entries.take(n));
        lemma_table_prefix_err(entries.drop_last(), n);
    }
}

/// A table that was decoded holds no type twice.
pub proof fn lemma_table_distinct(entries: Seq<(Seq<char>, JsonView)>)
    ensures
        table_of(entries) matches Ok(t) ==> distinct_keys(t),
    decreases entries.len(),
{
    if entries.len() > 0 {
        lemma_table_distinct(entries.drop_last());
        if let Ok(t) = table_of(entries.drop_last()) {
            if let Some(k) = OpType::from_wire_name(entries.last().0) {
                if let Ok(b) = ResourceBounds::decode_spec(entries.last().1) {
                    lemma_upsert_distinct(t, k, b);
                }
            }
        }
    }
}

/// An object keyed by the names of operation types.
impl Codec for OpTypeBounds {
    open spec fn decode_spec(j: JsonView) -> Result<Seq<(OpType, ResourceBounds)>, ErrorView> {
        match j {
            JsonView::Object(entries) => table_of(entries),
            _ => Err(ErrorView::mismatch()),
        }
    }

    open spec fn encode_spec(v: Seq<(OpType, ResourceBounds)>) -> JsonView {
        JsonView::Object(table_entries(v))
    }

    open spec fn valid(v: Seq<(OpType, ResourceBounds)>) -> bool {
        distinct_keys(v)
    }

    fn decode(j: &Json) -> (r: Result<OpTypeBounds, DecodeError>) {
        match j {
            Json::Object(entries) => {
                let ghost all = j.deep_view()->Object_0;
                let mut out: Vec<(OpType, ResourceBounds)> = Vec::new();
                let mut i: usize = 0;
                assert(all.take(0) =~= Seq::empty());
                while i < entries.len()
                    invariant
                        i <= entries.len(),
                        j == Json::Object(*entries),
                        all == j.deep_view()->Object_0,
                        table_of(all.take(i as int)) == Ok::<Seq<(OpType, ResourceBounds)>, ErrorView>(
                            out@,
                        ),
                    decreases entries.len() - i,
                {
                    proof {
                        assert(all.take(i + 1).drop_last() =~= all.take(i as int));
                        assert(all.take(i + 1).last() == all[i as int]);
                        assert(all[i as int] == (entries@[i as int].0@, entries@[i as int].1.model()));
                    }
                    let k: OpType = match OpType::parse_wire(entries[i].0.as_str()) {
                        Some(k) => k,
                        None => {
                            proof {
                                lemma_table_prefix_err(all, i + 1);
                            }
                            return Err(
                                DecodeError::here(ErrorKind::UnknownVariant).under(
                                    PathStep::Index(i),
                                ),
                            );
                        },
                    };
                    let b: ResourceBounds = match ResourceBounds::decode(&entries[i].1) {
                        Ok(b) => b,
                        Err(e) => {
                            proof {
                                lemma_table_prefix_err(all, i + 1);
                            }
                            return Err(e.under(PathStep::Index(i)));
                        },
                    };
                    proof {
                        lemma_position(out@, k);
                    }
                    let mut at: usize = 0;
                    while at < out.len() && !(out[at].0 == k)
                        invariant
                            at <= out.len(),
                            forall|a: int| 0 <= a < at ==> (#[trigger] out@[a]).0 != k,
                        decreases out.len() - at,
                    {
                        at = at + 1;
                    }
                    if at < out.len() {
                        out.set(at, (k, b));
                    } else {
                        out.push((k, b));
                    }
                    i = i + 1;
                }
                proof {
                    assert(all.take(i as int) =~= all);
                    lemma_table_distinct(all);
                    Self::lemma_round_trip(out@);
                }
                Ok(OpTypeBounds { entries: out })
            },
            _ => Err(DecodeError::mismatch()),
        }
    }

    fn encode(&self) -> (j: Json) {
        let mut fields = Fields::new();
        let mut i: usize = 0;
        assert(table_entries(self.entries@.take(0)) =~= Seq::empty());
        while i < self.entries.len()
            invariant
                i <= self.entries.len(),
                fields.model() == table_entries(self.entries@.take(i as int)),
            decreases self.entries.len() - i,
        {
            let ghost before = fields.model();
            let name = self.entries[i].0.as_str();
            let value = self.entries[i].1.encode();
            fields.put(name, value);
            assert(table_entries(self.entries@.take(i + 1)) =~= before.push(
                (
                    self.entries@[i as int].0.name(),
                    ResourceBounds::encode_spec(self.entries@[i as int].1),
                ),
            ));
            i = i + 1;
        }
        assert(self.entries@.take(i as int) =~= self.entries@);
        fields.finish()
    }

    proof fn lemma_round_trip(v: Seq<(OpType, ResourceBounds)>)
        decreases v.len(),
    {
        if v.len() == 0 {
            assert(table_entries(v) =~= Seq::empty());
            assert(v =~= Seq::empty());
        } else {
            let k = v.last().0;
            let b = v.last().1;
            assert(table_entries(v).drop_last() =~= table_entries(v.drop_last()));
            Self::lemma_round_trip(v.drop_last());
            OpType::lemma_name_round_trip(k);
            ResourceBounds::lemma_round_trip(b);
            lemma_position(v.drop_last(), k);
            assert(position(v.drop_last(), k) is None) by {
                if let Some(i) = position(v.drop_last(), k) {
                    assert(v.drop_last()[i] == v[i]);
                    assert(v[i].0 != v[v.len() - 1].0);
                }
            }
            assert(table_entries(v).last() == (k.name(), ResourceBounds::encode_spec(b)));
            assert(v.drop_last().push((k, b)) =~= v);
            assert(table_of(table_entries(v)) == Ok::<Seq<(OpType, ResourceBounds)>, ErrorView>(v));
        }
    }
}

impl DeepCopy for OpTypeBounds {
    fn deep_copy(&self) -> (r: OpTypeBounds) {
        let mut entries: Vec<(OpType, ResourceBounds)> = Vec::new();
        let mut i: usize = 0;
        while i < self.entries.len()
            invariant
                i <= self.entries.len(),
                entries@ == self.entries@.take(i as int),
            decreases self.entries.len() - i,
        {
            entries.push(self.entries[i]);
            assert(entries@ =~= self.entries@.take(i + 1));
            i = i + 1;
        }
        assert(self.entries@.take(i as int) =~= self.entries@);
        OpTypeBounds { entries }
    }
}

/// What is known of the resources that a region of a circuit takes.
#[derive(Clone, Debug, PartialEq)]
pub struct ResourceData {
    /// Bounds on how often each of some operation types occurs.
    pub op_type_count: OpTypeBounds,
    /// Bounds on the depth in gates.
    pub gate_depth: ResourceBounds,
    /// Bounds on the depth in each of some operation types.
    pub op_type_depth: OpTypeBounds,
    /// Bounds on the depth in two-qubit gates.
    pub two_qubit_gate_depth: ResourceBounds,
}

/// The mathematical value of a [`ResourceData`].
pub struct ResourceDataView {
    pub op_type_count: Seq<(OpType, ResourceBounds)>,
    pub gate_depth: ResourceBounds,
    pub op_type_depth: Seq<(OpType, ResourceBounds)>,
    pub two_qubit_gate_depth: ResourceBounds,
}

impl DeepView for ResourceData {
    type V = ResourceDataView;

    open spec fn deep_view(&self) -> ResourceDataView {
        ResourceDataView {
            op_type_count: self.op_type_count.deep_view(),
            gate_depth: self.gate_depth.deep_view(),
            op_type_depth: self.op_type_depth.deep_view(),
            two_qubit_gate_depth: self.two_qubit_gate_depth.deep_view(),
        }
    }
}

/// An object with the fields `op_type_count`, `gate_depth`, `op_type_depth`
/// and `two_qubit_gate_depth`.
impl Codec for ResourceData {
    #[verifier::opaque]
    open spec fn decode_spec(j: JsonView) -> Result<ResourceDataView, ErrorView> {
        match required_spec::<OpTypeBounds>(j, "op_type_count") {
            Err(e) => Err(e),
            Ok(op_type_count) => match required_spec::<ResourceBounds>(j, "gate_depth") {
                Err(e) => Err(e),
                Ok(gate_depth) => match required_spec::<OpTypeBounds>(j, "op_type_depth") {
                    Err(e) => Err(e),
                    Ok(op_type_depth) => match required_spec::<ResourceBounds>(
                        j, "two_qubit_gate_depth",
                    ) {
                        Err(e) => Err(e),
                        Ok(two_qubit_gate_depth) => Ok(ResourceDataView {
                            op_type_count,
                            gate_depth,
                            op_type_depth,
                            two_qubit_gate_depth,
                        }),
                    },
                },
            },
        }
    }

    #[verifier::opaque]
    open spec fn encode_spec(v: ResourceDataView) -> JsonView {
        let e = Seq::empty();
        let e = put_spec::<OpTypeBounds>(e, "op_type_count", v.op_type_count);
        let e = put_spec::<ResourceBounds>(e, "gate_depth", v.gate_depth);
        let e = put_spec::<OpTypeBounds>(e, "op_type_depth", v.op_type_depth);
        let e = put_spec::<ResourceBounds>(e, "two_qubit_gate_depth", v.two_qubit_gate_depth);
        JsonView::Object(e)
    }

    open spec fn valid(v: ResourceDataView) -> bool {
        OpTypeBounds::valid(v.op_type_count) && OpTypeBounds::valid(v.op_type_depth)
    }

    fn decode(j: &Json) -> (r: Result<ResourceData, DecodeError>) {
        proof {
            reveal(<ResourceData as Codec>::decode_spec);
        }
        let op_type_count: OpTypeBounds = match required::<OpTypeBounds>(j, "op_type_count") {
            Ok(v) => v,
            Err(e) => {
                return Err(e);
            },
        };
        let gate_depth: ResourceBounds = match required::<ResourceBounds>(j, "gate_depth") {
            Ok(v) => v,
            Err(e) => {
                return Err(e);
            },
        };
        let op_type_depth: OpTypeBounds = match required::<OpTypeBounds>(j, "op_type_depth") {
            Ok(v) => v,
            Err(e) => {
                return Err(e);
            },
        };
        let two_qubit_gate_depth: ResourceBounds = match required::<ResourceBounds>(
            j, "two_qubit_gate_depth",
        ) {
            Ok(v) => v,
            Err(e) => {
                return Err(e);
            },
        };
        let r = ResourceData { op_type_count, gate_depth, op_type_depth, two_qubit_gate_depth };
        proof {
            Self::lemma_round_trip(r.deep_view());
        }
        Ok(r)
    }

    fn encode(&self) -> (j: Json) {
        proof {
            reveal(<ResourceData as Codec>::encode_spec);
        }
        let mut fields = Fields::new();
        put::<OpTypeBounds>(&mut fields, "op_type_count", &self.op_type_count);
        put::<ResourceBounds>(&mut fields, "gate_depth", &self.gate_depth);
        put::<OpTypeBounds>(&mut fields, "op_type_depth", &self.op_type_depth);
        put::<ResourceBounds>(&mut fields, "two_qubit_gate_depth", &self.two_qubit_gate_depth);
        fields.finish()
    }

    proof fn lemma_round_trip(v: ResourceDataView) {
        reveal(<ResourceData as Codec>::decode_spec);
        reveal(<ResourceData as Codec>::encode_spec);
        broadcast use group_field;

        reveal_strlit("op_type_count");
        reveal_strlit("gate_depth");
        reveal_strlit("op_type_depth");
        reveal_strlit("two_qubit_gate_depth");
        assert("op_type_count"@.len() == 13 && "op_type_count"@[8] == 'c');
        assert("gate_depth"@.len() == 10 && "gate_depth"@[8] == 't');
        assert("op_type_depth"@.len() == 13 && "op_type_depth"@[8] == 'd');
        assert("two_qubit_gate_depth"@.len() == 20 && "two_qubit_gate_depth"@[8] == 't');
        OpTypeBounds::lemma_round_trip(v.op_type_count);
        ResourceBounds::lemma_round_trip(v.gate_depth);
        OpTypeBounds::lemma_round_trip(v.op_type_depth);
        ResourceBounds::lemma_round_trip(v.two_qubit_gate_depth);
    }
}

impl DeepCopy for ResourceData {
    fn deep_copy(&self) -> (r: ResourceData) {
        ResourceData {
            op_type_count: self.op_type_count.deep_copy(),
            gate_depth: self.gate_depth.deep_copy(),
            op_type_depth: self.op_type_depth.deep_copy(),
            two_qubit_gate_depth: self.two_qubit_gate_depth.deep_copy(),
        }
    }
}

} // verus!
