use vstd::prelude::*;
use crate::reading::{gauge_values_of, MeteoData, Sample};
use crate::schema::{gauge_descriptors, gauge_table, GAUGE_COUNT};

verus! {

/// The value of every gauge right after registration.
pub open spec fn initial_gauges() -> Seq<Sample> {
    Seq::new(GAUGE_COUNT as nat, |i: int| Sample::Single(0))
}

/// One published gauge: its metric name, its help text and its value.
#[derive(Clone, Copy, Debug)]
pub struct GaugeLine {
    pub name: &'static str,
    pub help: &'static str,
    pub value: Sample,
}

/// What a gauge line says, as plain values.
pub open spec fn line_view(l: GaugeLine) -> (Seq<char>, Seq<char>, Sample) {
    (l.name@, l.help@, l.value)
}

/// The lines a gauge state publishes: for each entry of the gauge table, in
/// order, its name, its help text and its current value.
pub open spec fn exposition_of(values: Seq<Sample>) -> Seq<(Seq<char>, Seq<char>, Sample)> {
    Seq::new(values.len(), |i: int| (gauge_table()[i].0, gauge_table()[i].1, values[i]))
}

/// The fixed set of gauges, one per entry of the gauge table, each holding
/// the last value it was set to.
pub struct GaugeSet {
    values: Vec<Sample>,
}

impl View for GaugeSet {
    type V = Seq<Sample>;

    closed spec fn view(&self) -> Seq<Sample> {
        self.values@
    }
}

impl GaugeSet {
    /// Every gauge of the table is present.
    #[verifier::type_invariant]
    spec fn inv(&self) -> bool {
        self.values@.len() == GAUGE_COUNT
    }

    pub open spec fn wf(&self) -> bool {
        self@.len() == GAUGE_COUNT
    }

    /// Overwrites every gauge with the value that the forecast answer gives.
    pub fn record(&mut self, m: &MeteoData)
        ensures
            final(self)@ == gauge_values_of(*m),
            final(self).wf(),
    {
        *self = GaugeSet { values: m.gauge_values() };
    }

    /// The current value of one gauge, by its position in the gauge table.
    pub fn value(&self, index: usize) -> (r: Sample)
        requires
            index < self@.len(),
        ensures
            r == self@[index as int],
    {
        self.values[index]
    }

    /// The lines that the current state publishes. Reading them changes no
    /// gauge.
    pub fn render(&self) -> (r: Vec<GaugeLine>)
        ensures
            r@.map_values(|l: GaugeLine| line_view(l)) == exposition_of(self@),
    {
        proof {
            use_type_invariant(self);
        }
        let table = gauge_descriptors();
        let mut r: Vec<GaugeLine> = Vec::new();
        let mut i: usize = 0;
        while i < self.values.len()
            invariant
                self.values@.len() == GAUGE_COUNT,
                table@.len() == GAUGE_COUNT,
                forall|j: int|
                    0 <= j < table@.len() ==> (#[trigger] table@[j]).0@ == gauge_table()[j].0
                        && table@[j].1@ == gauge_table()[j].1,
                i <= self.values@.len(),
                r@.len() == i,
                forall|j: int|
                    0 <= j < i ==> line_view(#[trigger] r@[j]) == exposition_of(self.values@)[j],
            decreases self.values@.len() - i,
        {
            let (name, help) = table[i];
            r.push(GaugeLine { name, help, value: self.values[i] });
            i = i + 1;
        }
        assert(r@.map_values(|l: GaugeLine| line_view(l)) =~= exposition_of(self@));
        r
    }
}

/// Registers every gauge of the table, each starting at zero.
pub fn register_metrics() -> (r: GaugeSet)
    ensures
        r.wf(),
        r@ == initial_gauges(),
{
    let mut values: Vec<Sample> = Vec::new();
    let mut i: usize = 0;
    while i < GAUGE_COUNT
        invariant
            i <= GAUGE_COUNT,
            values@ == Seq::new(i as nat, |j: int| Sample::Single(0)),
        decreases GAUGE_COUNT - i,
    {
        values.push(Sample::Single(0));
        i = i + 1;
        assert(values@ =~= Seq::new(i as nat, |j: int| Sample::Single(0)));
    }
    GaugeSet { values }
}

} // verus!
