use vstd::prelude::*;

use crate::scancode::ScanCode;


verus! {

/// Whether a key went down or came up.
#[derive(Debug, Clone, Copy, PartialEq, Eq, Structural)]
pub enum KeyStatus {
    Pressed,
    Released,
}

/// One decoded key transition.
#[derive(Debug, Clone, Copy, PartialEq, Eq, Structural)]
pub struct Event {
    pub scan_code: ScanCode,
    pub key_status: KeyStatus,
}

/// One of the four layers of a keymap.
#[derive(Debug, Clone, Copy, PartialEq, Eq, PartialOrd, Ord, Structural)]
pub enum LayerId {
    One,
    Two,
    Three,
    Four,
}

/// Number of layers in a keymap.
pub const LAYER_COUNT: usize = 4;

impl LayerId {
    /// The layer's position in its keymap.
    pub open spec fn position(self) -> int {
        match self {
            LayerId::One => 0,
            LayerId::Two => 1,
            LayerId::Three => 2,
            LayerId::Four => 3,
        }
    }

    pub fn index(self) -> (r: usize)
        ensures
            r == self.position(),
            r < LAYER_COUNT,
    {
        match self {
            LayerId::One => 0,
            LayerId::Two => 1,
            LayerId::Three => 2,
            LayerId::Four => 3,
        }
    }
}

impl Default for LayerId {
    fn default() -> (r: Self)
        ensures
            r == LayerId::One,
    {
        LayerId::One
    }
}

/// What a key does on a layer.
#[derive(Debug, Clone, Copy, PartialEq, Eq)]
pub enum Effect {
    Ignore,
    /// Emits the text when the key is pressed.
    Emit(&'static str),
    /// Moves to the layer when the key is pressed.
    OnPressGotoLayer(LayerId),
    /// Moves to the layer when the key is released.
    OnReleaseGotoLayer(LayerId),
}

/// The effect that `mapping` gives to the key of index `code`: that of its
/// last entry for the key, or `Ignore` when it has none.
pub open spec fn mapped_effect(mapping: Seq<(ScanCode, Effect)>, code: int) -> Effect
    decreases mapping.len(),
{
    if mapping.len() == 0 {
        Effect::Ignore
    } else if mapping.last().0.code() == code {
        mapping.last().1
    } else {
        mapped_effect(mapping.drop_last(), code)
    }
}

/// The effects of the keys on one layer, indexed by key.
pub struct Layer {
    name: &'static str,
    effects: Vec<Effect>,
}

impl Layer {
    /// The effect of each key, by index.
    pub closed spec fn effects(&self) -> Seq<Effect> {
        self.effects@
    }

    /// The layer's name.
    pub closed spec fn name_spec(&self) -> &'static str {
        self.name
    }

    /// A layer on which the keys of `mapping` have their effects and every
    /// other key is ignored; a key mapped twice keeps its last effect.
    pub fn new(name: &'static str, mapping: &[(ScanCode, Effect)]) -> (r: Self)
        ensures
            r.name_spec() == name,
            r.effects().len() == ScanCode::COUNT,
            forall|k: int|
                0 <= k < ScanCode::COUNT ==> #[trigger] r.effects()[k] == mapped_effect(mapping@, k),
    {
        let mut effects: Vec<Effect> = Vec::new();
        let mut k: usize = 0;
        while k < ScanCode::COUNT
            invariant
                k <= ScanCode::COUNT,
                effects@.len() == k,
                forall|j: int| 0 <= j < k ==> #[trigger] effects@[j] == Effect::Ignore,
            decreases ScanCode::COUNT - k,
        {
            effects.push(Effect::Ignore);
            k = k + 1;
        }
        let mut index: usize = 0;
        while index < mapping.len()
            invariant
                index <= mapping@.len(),
                effects@.len() == ScanCode::COUNT,
                forall|j: int|
                    0 <= j < ScanCode::COUNT ==> #[trigger] effects@[j] == mapped_effect(
                        mapping@.take(index as int),
                        j,
                    ),
            decreases mapping@.len() - index,
        {
            let (scan_code, effect) = mapping[index];
            effects.set(scan_code.index() as usize, effect);
            assert(mapping@.take(index as int + 1).drop_last() =~= mapping@.take(index as int));
            index = index + 1;
        }
        assert(mapping@.take(mapping@.len() as int) =~= mapping@);
        Layer { name, effects }
    }

    /// The effect of `scan_code` on this layer.
    pub fn effect(&self, scan_code: ScanCode) -> (r: Effect)
        requires
            self.effects().len() == ScanCode::COUNT,
        ensures
            r == self.effects()[scan_code.code() as int],
    {
        self.effects[scan_code.index() as usize]
    }
}

/// A named set of four layers.
pub struct Keymap {
    name: &'static str,
    layers: Vec<Layer>,
}

impl Keymap {
    /// The layers, by position.
    pub closed spec fn layers(&self) -> Seq<Layer> {
        self.layers@
    }

    /// Four layers, each with an effect for every key.
    pub open spec fn wf(&self) -> bool {
        &&& self.layers().len() == LAYER_COUNT
        &&& forall|i: int|
            0 <= i < LAYER_COUNT ==> #[trigger] self.layers()[i].effects().len() == ScanCode::COUNT
    }

    pub fn new(name: &'static str, one: Layer, two: Layer, three: Layer, four: Layer) -> (r: Self)
        ensures
            r.layers() == seq![one, two, three, four],
    {
        let mut layers: Vec<Layer> = Vec::new();
        layers.push(one);
        layers.push(two);
        layers.push(three);
        layers.push(four);
        assert(layers@ =~= seq![one, two, three, four]);
        Keymap { name, layers }
    }

    /// The layer `id`.
    pub fn index(&self, id: LayerId) -> (r: &Layer)
        requires
            self.wf(),
        ensures
            *r == self.layers()[id.position()],
    {
        &self.layers[id.index()]
    }
}

/// A keyboard: the keymap, the layer in use and the last status of each key.
pub struct Keyboard {
    keymap: Keymap,
    current_layer: LayerId,
    key_statuses: Vec<KeyStatus>,
}

impl Keyboard {
    /// The keymap.
    pub closed spec fn keymap(&self) -> &Keymap {
        &self.keymap
    }

    /// The layer in use.
    pub closed spec fn layer(&self) -> LayerId {
        self.current_layer
    }

    /// The last status of each key, by index.
    pub closed spec fn statuses(&self) -> Seq<KeyStatus> {
        self.key_statuses@
    }

    pub open spec fn wf(&self) -> bool {
        &&& self.keymap().wf()
        &&& self.statuses().len() == ScanCode::COUNT
    }

    /// A keyboard on `keymap`, on its first layer, with every key released.
    pub fn new(keymap: Keymap) -> (r: Self)
        requires
            keymap.wf(),
        ensures
            r.wf(),
            *r.keymap() == keymap,
            r.layer() == LayerId::One,
            r.statuses() == Seq::new(ScanCode::COUNT as nat, |i: int| KeyStatus::Released),
    {
        let mut key_statuses: Vec<KeyStatus> = Vec::new();
        let mut k: usize = 0;
        while k < ScanCode::COUNT
            invariant
                k <= ScanCode::COUNT,
                key_statuses@.len() == k,
                forall|j: int| 0 <= j < k ==> #[trigger] key_statuses@[j] == KeyStatus::Released,
            decreases ScanCode::COUNT - k,
        {
            key_statuses.push(KeyStatus::Released);
            k = k + 1;
        }
        assert(key_statuses@ =~= Seq::new(ScanCode::COUNT as nat, |i: int| KeyStatus::Released));
        Keyboard { keymap, current_layer: LayerId::One, key_statuses }
    }

    /// The effect of the event's key on the layer in use.
    pub open spec fn effect_of(&self, event: Event) -> Effect {
        self.keymap().layers()[self.layer().position()].effects()[event.scan_code.code() as int]
    }

    /// The text that the event emits: that of an `Emit` effect, on a press.
    pub open spec fn emitted(&self, event: Event) -> Option<&'static str> {
        match (self.effect_of(event), event.key_status) {
            (Effect::Emit(text), KeyStatus::Pressed) => Some(text),
            _ => None,
        }
    }

    /// The layer in use after the event: the one that a layer effect names,
    /// on the transition it names.
    pub open spec fn layer_after(&self, event: Event) -> LayerId {
        match (self.effect_of(event), event.key_status) {
            (Effect::OnPressGotoLayer(id), KeyStatus::Pressed) => id,
            (Effect::OnReleaseGotoLayer(id), KeyStatus::Released) => id,
            _ => self.layer(),
        }
    }

    /// Records the key's new status and applies its effect on the layer in
    /// use: text is emitted on a press, and a layer change happens on the
    /// transition that the effect names.
    pub fn feed(&mut self, event: Event) -> (r: Option<&'static str>)
        requires
            old(self).wf(),
        ensures
            final(self).wf(),
            *final(self).keymap() == *old(self).keymap(),
            final(self).statuses() == old(self).statuses().update(
                event.scan_code.code() as int,
                event.key_status,
            ),
            r == old(self).emitted(event),
            final(self).layer() == old(self).layer_after(event),
    {
        let scan_code = event.scan_code;
        let key_status = event.key_status;
        self.key_statuses.set(scan_code.index() as usize, key_status);
        let effect = self.keymap.index(self.current_layer).effect(scan_code);
        match (effect, key_status) {
            (Effect::Emit(text), KeyStatus::Pressed) => Some(text),
            (Effect::OnPressGotoLayer(layer_id), KeyStatus::Pressed) => {
                self.current_layer = layer_id;
                None
            },
            (Effect::OnReleaseGotoLayer(layer_id), KeyStatus::Released) => {
                self.current_layer = layer_id;
                None
            },
            _ => None,
        }
    }
}

} // verus!
