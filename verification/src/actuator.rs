use vstd::prelude::*;

use crate::config::Config;
use crate::config::Level;
use crate::data::coerce;
use crate::data::coerce_spec;
use crate::data::CoercionError;
use crate::data::HighLowToggle;
use crate::data::RawValue;

verus! {

/// One owned output pin: its configured name, hardware pin number, and the
/// level it is currently driven to.
#[derive(Debug, Clone)]
pub struct OutputPinState {
    pub name: String,
    pub pin: u8,
    pub level: bool,
}

/// A command batch as decoded from the command topic: pin names mapped to raw
/// actuation values.
#[derive(Debug, Clone)]
pub struct CommandBatch {
    pub entries: Vec<(String, RawValue)>,
}

/// One hardware write the actuator asks for: drive this pin to this level.
#[derive(Debug, Clone, Copy, PartialEq, Eq, Structural)]
pub struct PinWrite {
    pub pin: u8,
    pub level: bool,
}

/// A skipped command entry, reported for logging: the pin name was unknown,
/// or its value could not be coerced to a directive.
#[derive(Debug, Clone)]
pub enum CommandWarning {
    UnknownPin(String),
    BadValue(String, CoercionError),
}

/// The output actuator's owned pins, in configuration order.
#[derive(Debug, Clone)]
pub struct OutputActuator {
    pub pins: Vec<OutputPinState>,
}

/// Some output pin carries this name.
pub open spec fn has_output(pins: Seq<OutputPinState>, name: Seq<char>) -> bool {
    exists|i: int| 0 <= i < pins.len() && (#[trigger] pins[i]).name@ == name
}

/// Index `i` holds the first output pin with this name.
pub open spec fn is_first_output_match(pins: Seq<OutputPinState>, name: Seq<char>, i: int) -> bool {
    &&& 0 <= i < pins.len()
    &&& pins[i].name@ == name
    &&& forall|k: int| 0 <= k < i ==> (#[trigger] pins[k]).name@ != name
}

/// The index of the first output pin with this name (meaningful only when
/// `has_output` holds).
pub open spec fn first_output_index(pins: Seq<OutputPinState>, name: Seq<char>) -> int {
    choose|i: int| is_first_output_match(pins, name, i)
}

pub proof fn lemma_first_output_match_unique(
    pins: Seq<OutputPinState>,
    name: Seq<char>,
    i: int,
    j: int,
)
    requires
        is_first_output_match(pins, name, i),
        is_first_output_match(pins, name, j),
    ensures
        i == j,
{
    if i < j {
        assert(pins[i].name@ != name);
    }
    if j < i {
        assert(pins[j].name@ != name);
    }
}

/// When some pin carries the name, `first_output_index` really is the first
/// match.
pub proof fn lemma_first_output_match_exists(pins: Seq<OutputPinState>, name: Seq<char>)
    requires
        has_output(pins, name),
    ensures
        is_first_output_match(pins, name, first_output_index(pins, name)),
    decreases pins.len(),
{
    if pins[0].name@ == name {
        assert(is_first_output_match(pins, name, 0));
    } else {
        let w = choose|i: int| 0 <= i < pins.len() && (#[trigger] pins[i]).name@ == name;
        assert(pins.drop_first()[w - 1].name@ == name);
        assert(has_output(pins.drop_first(), name));
        lemma_first_output_match_exists(pins.drop_first(), name);
        let j = first_output_index(pins.drop_first(), name);
        assert(forall|k: int|
            1 <= k < j + 1 ==> (#[trigger] pins[k]).name@ == pins.drop_first()[k - 1].name@);
        assert(is_first_output_match(pins, name, j + 1));
    }
    assert(exists|i: int| is_first_output_match(pins, name, i));
}

/// What one command entry does to the pins: `Some((i, lvl))` when the write
/// of level `lvl` lands on pin index `i`, `None` when the entry is skipped
/// (unknown name or uncoercible value). A Toggle write inverts the pin's
/// current level.
pub open spec fn entry_effect(pins: Seq<OutputPinState>, name: Seq<char>, raw: RawValue) -> Option<
    (int, bool),
> {
    if has_output(pins, name) {
        match coerce_spec(raw) {
            Ok(d) => {
                let i = first_output_index(pins, name);
                Some(
                    (
                        i,
                        (match d {
                            HighLowToggle::High => true,
                            HighLowToggle::Low => false,
                            HighLowToggle::Toggle => !pins[i].level,
                        }),
                    ),
                )
            },
            Err(_) => None,
        }
    } else {
        None
    }
}

/// The pins after one command entry.
pub open spec fn apply_entry(pins: Seq<OutputPinState>, name: Seq<char>, raw: RawValue) -> Seq<
    OutputPinState,
> {
    match entry_effect(pins, name, raw) {
        Some((i, lvl)) => pins.update(
            i,
            (OutputPinState { name: pins[i].name, pin: pins[i].pin, level: lvl }),
        ),
        None => pins,
    }
}

/// The warning one command entry raises, if it is skipped.
pub open spec fn entry_warning(pins: Seq<OutputPinState>, entry: (String, RawValue)) -> Option<
    CommandWarning,
> {
    if !has_output(pins, entry.0@) {
        Some(CommandWarning::UnknownPin(entry.0))
    } else {
        match coerce_spec(entry.1) {
            Ok(_) => None,
            Err(e) => Some(CommandWarning::BadValue(entry.0, e)),
        }
    }
}

/// The pins after a whole batch, entries applied in order.
pub open spec fn apply_batch_spec(
    pins: Seq<OutputPinState>,
    entries: Seq<(String, RawValue)>,
) -> Seq<OutputPinState>
    decreases entries.len(),
{
    if entries.len() == 0 {
        pins
    } else {
        apply_batch_spec(apply_entry(pins, entries[0].0@, entries[0].1), entries.drop_first())
    }
}

/// The hardware writes a batch asks for, in entry order.
pub open spec fn batch_writes(pins: Seq<OutputPinState>, entries: Seq<(String, RawValue)>) -> Seq<
    PinWrite,
>
    decreases entries.len(),
{
    if entries.len() == 0 {
        Seq::empty()
    } else {
        let head = (match entry_effect(pins, entries[0].0@, entries[0].1) {
            Some((i, lvl)) => seq![PinWrite { pin: pins[i].pin, level: lvl }],
            None => Seq::<PinWrite>::empty(),
        });
        head + batch_writes(apply_entry(pins, entries[0].0@, entries[0].1), entries.drop_first())
    }
}

/// The warnings a batch raises, in entry order.
pub open spec fn batch_warnings(
    pins: Seq<OutputPinState>,
    entries: Seq<(String, RawValue)>,
) -> Seq<CommandWarning>
    decreases entries.len(),
{
    if entries.len() == 0 {
        Seq::empty()
    } else {
        let head = (match entry_warning(pins, entries[0]) {
            Some(w) => seq![w],
            None => Seq::<CommandWarning>::empty(),
        });
        head + batch_warnings(apply_entry(pins, entries[0].0@, entries[0].1), entries.drop_first())
    }
}

/// The level an output pin is driven to at startup: its configured default,
/// or low (the hardware power-on default) when unset.
pub open spec fn initial_level(d: Option<Level>) -> bool {
    match d {
        Some(Level::High) => true,
        Some(Level::Low) => false,
        None => false,
    }
}

impl OutputActuator {
    /// Build the owned output pins from the configuration, in order, each at
    /// its configured default level.
    pub fn from_config(config: &Config) -> (a: OutputActuator)
        ensures
            a.pins@.len() == config.outputs@.len(),
            forall|i: int|
                0 <= i < a.pins@.len() ==> (#[trigger] a.pins@[i]).name@ == config.outputs@[i].0@
                    && a.pins@[i].pin == config.outputs@[i].1.pin && a.pins@[i].level
                    == initial_level(config.outputs@[i].1.default),
    {
        let mut pins: Vec<OutputPinState> = Vec::new();
        let mut k: usize = 0;
        while k < config.outputs.len()
            invariant
                k <= config.outputs@.len(),
                pins@.len() == k,
                forall|i: int|
                    0 <= i < k ==> (#[trigger] pins@[i]).name@ == config.outputs@[i].0@
                        && pins@[i].pin == config.outputs@[i].1.pin && pins@[i].level
                        == initial_level(config.outputs@[i].1.default),
            decreases config.outputs@.len() - k,
        {
            let name = config.outputs[k].0.clone();
            let pin = config.outputs[k].1.pin;
            let level = match config.outputs[k].1.default {
                Some(Level::High) => true,
                Some(Level::Low) => false,
                None => false,
            };
            pins.push(OutputPinState { name, pin, level });
            k = k + 1;
        }
        OutputActuator { pins }
    }

    /// Process one command entry: find the first pin with the entry's name,
    /// coerce the value, and either record the write (updating the owned
    /// level) or report why the entry was skipped.
    fn apply_one(&mut self, name: &String, raw: &RawValue) -> (r: (
        Option<PinWrite>,
        Option<CommandWarning>,
    ))
        ensures
            final(self).pins@ == apply_entry(old(self).pins@, name@, *raw),
            r.0 == (match entry_effect(old(self).pins@, name@, *raw) {
                Some((i, lvl)) => Some((PinWrite { pin: old(self).pins@[i].pin, level: lvl })),
                None => None::<PinWrite>,
            }),
            r.1 == entry_warning(old(self).pins@, ((*name), (*raw))),
    {
        let ghost pins0 = self.pins@;
        let mut i: usize = 0;
        while i < self.pins.len()
            invariant
                self.pins@ == pins0,
                pins0 == old(self).pins@,
                i <= pins0.len(),
                forall|k: int| 0 <= k < i ==> (#[trigger] pins0[k]).name@ != name@,
            decreases pins0.len() - i,
        {
            if self.pins[i].name == *name {
                proof {
                    assert(is_first_output_match(pins0, name@, i as int));
                    assert(has_output(pins0, name@));
                    assert(exists|j: int| is_first_output_match(pins0, name@, j));
                    let c = first_output_index(pins0, name@);
                    assert(is_first_output_match(pins0, name@, c));
                    lemma_first_output_match_unique(pins0, name@, i as int, c);
                }
                match coerce(raw) {
                    Ok(d) => {
                        let lvl = match d {
                            HighLowToggle::High => true,
                            HighLowToggle::Low => false,
                            HighLowToggle::Toggle => !self.pins[i].level,
                        };
                        let pin = self.pins[i].pin;
                        self.pins[i].level = lvl;
                        proof {
                            assert(final(self).pins@ =~= apply_entry(pins0, name@, *raw));
                        }
                        return (Some(PinWrite { pin, level: lvl }), None);
                    },
                    Err(e) => {
                        return (None, Some(CommandWarning::BadValue(name.clone(), e)));
                    },
                }
            }
            i = i + 1;
        }
        proof {
            assert(!has_output(pins0, name@));
        }
        (None, Some(CommandWarning::UnknownPin(name.clone())))
    }

    /// Apply a whole command batch: each entry, in order, either drives its
    /// named pin to the coerced level (returned as a hardware write to
    /// perform) or is skipped with a warning; a skipped entry never stops the
    /// rest of the batch.
    pub fn apply_batch(&mut self, batch: &CommandBatch) -> (r: (Vec<PinWrite>, Vec<CommandWarning>))
        ensures
            final(self).pins@ == apply_batch_spec(old(self).pins@, batch.entries@),
            r.0@ == batch_writes(old(self).pins@, batch.entries@),
            r.1@ == batch_warnings(old(self).pins@, batch.entries@),
    {
        let ghost pins0 = self.pins@;
        let ghost entries = batch.entries@;
        let mut writes: Vec<PinWrite> = Vec::new();
        let mut warnings: Vec<CommandWarning> = Vec::new();
        let mut k: usize = 0;
        proof {
            assert(entries.skip(0) =~= entries);
            assert(writes@ + batch_writes(pins0, entries) =~= batch_writes(pins0, entries));
            assert(warnings@ + batch_warnings(pins0, entries) =~= batch_warnings(pins0, entries));
        }
        while k < batch.entries.len()
            invariant
                k <= entries.len(),
                batch.entries@ == entries,
                apply_batch_spec(pins0, entries) == apply_batch_spec(
                    self.pins@,
                    entries.skip(k as int),
                ),
                batch_writes(pins0, entries) == writes@ + batch_writes(
                    self.pins@,
                    entries.skip(k as int),
                ),
                batch_warnings(pins0, entries) == warnings@ + batch_warnings(
                    self.pins@,
                    entries.skip(k as int),
                ),
            decreases entries.len() - k,
        {
            let ghost pins_before = self.pins@;
            let ghost rest = entries.skip(k as int);
            let (w, warn) = self.apply_one(&batch.entries[k].0, &batch.entries[k].1);
            proof {
                assert(rest[0] == entries[k as int]);
                assert(rest.drop_first() =~= entries.skip(k as int + 1));
            }
            match w {
                Some(write) => {
                    writes.push(write);
                },
                None => {},
            }
            match warn {
                Some(x) => {
                    warnings.push(x);
                },
                None => {},
            }
            proof {
                assert(batch_writes(pins0, entries) =~= writes@ + batch_writes(
                    self.pins@,
                    entries.skip(k as int + 1),
                ));
                assert(batch_warnings(pins0, entries) =~= warnings@ + batch_warnings(
                    self.pins@,
                    entries.skip(k as int + 1),
                ));
            }
            k = k + 1;
        }
        proof {
            assert(entries.skip(entries.len() as int) =~= Seq::<(String, RawValue)>::empty());
            assert(writes@ =~= batch_writes(pins0, entries));
            assert(warnings@ =~= batch_warnings(pins0, entries));
        }
        (writes, warnings)
    }
}

/// `apply_entry` never renames or renumbers a pin; it only drives a level.
pub proof fn lemma_apply_entry_preserves_names(
    pins: Seq<OutputPinState>,
    name: Seq<char>,
    raw: RawValue,
)
    ensures
        apply_entry(pins, name, raw).len() == pins.len(),
        forall|k: int|
            0 <= k < pins.len() ==> (#[trigger] apply_entry(pins, name, raw)[k]).name@
                == pins[k].name@ && apply_entry(pins, name, raw)[k].pin == pins[k].pin,
{
    match entry_effect(pins, name, raw) {
        Some((i, lvl)) => {
            lemma_first_output_match_exists(pins, name);
        },
        None => {},
    }
}

/// A command batch holding one entry for a known pin with a coercible value
/// and one entry for an unknown pin name, in either order, performs exactly
/// the known entry's write; the unknown entry raises a warning, causes no
/// write, and does not stop the batch.
pub proof fn lemma_known_and_unknown_entry(
    pins: Seq<OutputPinState>,
    known: (String, RawValue),
    unknown: (String, RawValue),
)
    requires
        has_output(pins, known.0@),
        !has_output(pins, unknown.0@),
        coerce_spec(known.1) is Ok,
    ensures
        batch_writes(pins, seq![known, unknown]) == batch_writes(pins, seq![known]),
        batch_writes(pins, seq![unknown, known]) == batch_writes(pins, seq![known]),
        batch_writes(pins, seq![known]).len() == 1,
        batch_warnings(pins, seq![known, unknown]) == seq![CommandWarning::UnknownPin(unknown.0)],
        batch_warnings(pins, seq![unknown, known]) == seq![CommandWarning::UnknownPin(unknown.0)],
        apply_batch_spec(pins, seq![known, unknown]) == apply_entry(pins, known.0@, known.1),
        apply_batch_spec(pins, seq![unknown, known]) == apply_entry(pins, known.0@, known.1),
{
    lemma_first_output_match_exists(pins, known.0@);
    let pins2 = apply_entry(pins, known.0@, known.1);
    lemma_apply_entry_preserves_names(pins, known.0@, known.1);
    assert(!has_output(pins2, unknown.0@)) by {
        if has_output(pins2, unknown.0@) {
            let w = choose|i: int|
                0 <= i < pins2.len() && (#[trigger] pins2[i]).name@ == unknown.0@;
            assert(pins[w].name@ == unknown.0@);
        }
    }
    assert(apply_entry(pins, unknown.0@, unknown.1) == pins);
    assert(apply_entry(pins2, unknown.0@, unknown.1) == pins2);

    let empty = Seq::<(String, RawValue)>::empty();
    let s_k = seq![known];
    let s_ku = seq![known, unknown];
    let s_uk = seq![unknown, known];
    assert(s_k.drop_first() =~= empty);
    assert(s_ku.drop_first() =~= seq![unknown]);
    assert(s_uk.drop_first() =~= s_k);
    assert(seq![unknown].drop_first() =~= empty);

    let i = first_output_index(pins, known.0@);
    let lvl = (match coerce_spec(known.1) {
        Ok(d) => (match d {
            HighLowToggle::High => true,
            HighLowToggle::Low => false,
            HighLowToggle::Toggle => !pins[i].level,
        }),
        Err(_) => false,
    });
    assert(entry_effect(pins, known.0@, known.1) == Some((i, lvl)));
    let w = seq![PinWrite { pin: pins[i].pin, level: lvl }];

    assert(batch_writes(pins2, empty) =~= Seq::<PinWrite>::empty());
    assert(batch_writes(pins, s_k) =~= w);
    assert(batch_writes(pins2, seq![unknown]) =~= Seq::<PinWrite>::empty());
    assert(batch_writes(pins, s_ku) =~= w);
    assert(batch_writes(pins, s_uk) =~= Seq::<PinWrite>::empty() + batch_writes(pins, s_k));
    assert(batch_writes(pins, s_uk) =~= w);

    let uw = seq![CommandWarning::UnknownPin(unknown.0)];
    assert(batch_warnings(pins2, seq![unknown]) =~= uw + batch_warnings(pins2, empty));
    assert(batch_warnings(pins, s_ku) =~= uw);
    assert(batch_warnings(pins, s_k) =~= Seq::<CommandWarning>::empty());
    assert(batch_warnings(pins, s_uk) =~= uw + batch_warnings(pins, s_k));
    assert(batch_warnings(pins, s_uk) =~= uw);

    assert(apply_batch_spec(pins, s_ku) == apply_batch_spec(pins2, seq![unknown]));
    assert(apply_batch_spec(pins2, seq![unknown]) == apply_batch_spec(pins2, empty));
    assert(apply_batch_spec(pins, s_uk) == apply_batch_spec(pins, s_k));
    assert(apply_batch_spec(pins, s_k) == apply_batch_spec(pins2, empty));
}

} // verus!
