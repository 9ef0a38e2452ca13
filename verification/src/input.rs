//! What is held on the keyboard and on the game controllers, and what has
//! changed since the state was last digested.

use std::collections::{HashMap, HashSet};
use std::hash::Hash;
use vstd::prelude::*;
use vstd::std_specs::hash::obeys_key_model;
use vstd::std_specs::iter::IteratorSpec;

verus! {

/// The types that name a key and a button.
pub trait StateTypes where
    Self::Key: Hash + Eq + Copy + Clone,
    Self::Button: Hash + Eq + Copy + Clone,
 {
    type Key;

    type Button;
}

/// Whether keys hash and compare as values do. What is held on the keyboard
/// is known only where they do.
pub open spec fn keys_are_sound<ST: StateTypes>() -> bool {
    obeys_key_model::<ST::Key>()
}

/// Whether buttons hash and compare as values do. What is held on a
/// controller is known only where they do.
pub open spec fn buttons_are_sound<ST: StateTypes>() -> bool {
    obeys_key_model::<ST::Button>()
}

/// What a [`ControllerState`] holds.
#[verifier::reject_recursive_types(B)]
pub struct ControllerView<B> {
    pub buttons_held: Set<B>,
    pub last_buttons_held: Set<B>,
    pub axes: Seq<i16>,
    pub last_axes: Seq<i16>,
}

impl<B> ControllerView<B> {
    /// Every axis has a value now and a value at the last digest.
    pub open spec fn wf(self) -> bool {
        self.axes.len() == self.last_axes.len()
    }

    /// The controller after a digest: what is held now is what was held last.
    pub open spec fn digested(self) -> ControllerView<B> {
        ControllerView {
            last_buttons_held: self.buttons_held,
            last_axes: self.axes,
            ..self
        }
    }

    /// Whether `after` is this controller but for the buttons that are held.
    pub open spec fn differs_in_buttons_held(self, after: ControllerView<B>) -> bool {
        &&& after.last_buttons_held == self.last_buttons_held
        &&& after.axes == self.axes
        &&& after.last_axes == self.last_axes
    }

    /// Whether `after` is this controller digested, but for the buttons held
    /// last: the axes are taken as the axes of last time, and what is held
    /// now stays.
    pub open spec fn digested_but_for_buttons(self, after: ControllerView<B>) -> bool {
        &&& after.buttons_held == self.buttons_held
        &&& after.axes == self.axes
        &&& after.last_axes == self.axes
    }

    /// Whether an axis has gone beyond a threshold since the last digest.
    pub open spec fn axis_leaving_threshold(self, axis: int, threshold: i16) -> bool {
        (threshold > 0 && self.axes[axis] > threshold && self.last_axes[axis] <= threshold) || (
        threshold < 0 && self.axes[axis] < threshold && self.last_axes[axis] <= threshold)
    }
}

/// The state of one game controller.
pub struct ControllerState<ST> where ST: StateTypes {
    buttons_held: HashSet<ST::Button>,
    last_buttons_held: HashSet<ST::Button>,
    axes: Vec<i16>,
    last_axes: Vec<i16>,
}

/// `Clone::clone` of a `HashSet`: a set that holds the same items, where the
/// items hash, compare and clone as values do.
#[verifier::external_body]
fn clone_set<K: Hash + Eq + Copy + Clone>(set: &HashSet<K>) -> (copy: HashSet<K>)
    ensures
        obeys_key_model::<K>() ==> copy@ == set@,
{
    set.clone()
}

impl<ST> View for ControllerState<ST> where ST: StateTypes {
    type V = ControllerView<ST::Button>;

    closed spec fn view(&self) -> ControllerView<ST::Button> {
        ControllerView {
            buttons_held: self.buttons_held@,
            last_buttons_held: self.last_buttons_held@,
            axes: self.axes@,
            last_axes: self.last_axes@,
        }
    }
}

impl<ST> ControllerState<ST> where ST: StateTypes {
    /// The invariant of the controller.
    pub open spec fn wf(&self) -> bool {
        self@.wf()
    }

    /// A controller with `num_axes` axes at rest and no button held.
    pub fn new(num_axes: usize) -> (made: Self)
        ensures
            made.wf(),
            made@.buttons_held == Set::<ST::Button>::empty(),
            made@.last_buttons_held == Set::<ST::Button>::empty(),
            made@.axes == Seq::new(num_axes as nat, |i: int| 0i16),
            made@.last_axes == Seq::new(num_axes as nat, |i: int| 0i16),
    {
        let axes: Vec<i16> = vec![0i16; num_axes];
        let last_axes: Vec<i16> = vec![0i16; num_axes];
        Self { buttons_held: HashSet::new(), last_buttons_held: HashSet::new(), axes, last_axes }
    }

    /// Whether the button is held now and was not at the last digest.
    pub fn is_button_pressed(&self, button: ST::Button) -> (pressed: bool)
        ensures
            buttons_are_sound::<ST>() ==> pressed == (!self@.last_buttons_held.contains(button)
                && self@.buttons_held.contains(button)),
    {
        !self.last_buttons_held.contains(&button) && self.buttons_held.contains(&button)
    }

    /// Whether the button was held at the last digest and is not now.
    pub fn is_button_released(&self, button: ST::Button) -> (released: bool)
        ensures
            buttons_are_sound::<ST>() ==> released == (self@.last_buttons_held.contains(button)
                && !self@.buttons_held.contains(button)),
    {
        self.last_buttons_held.contains(&button) && !self.buttons_held.contains(&button)
    }

    /// Whether the button is held now.
    pub fn is_button_held(&self, button: ST::Button) -> (held: bool)
        ensures
            buttons_are_sound::<ST>() ==> held == self@.buttons_held.contains(button),
    {
        self.buttons_held.contains(&button)
    }

    /// The number of axes.
    pub fn axis_count(&self) -> (count: usize)
        ensures
            count == self@.axes.len(),
    {
        self.axes.len()
    }

    /// The value of an axis.
    pub fn axis(&self, axis: usize) -> (value: i16)
        requires
            axis < self@.axes.len(),
        ensures
            value == self@.axes[axis as int],
    {
        self.axes[axis]
    }

    /// How far an axis has moved since the last digest.
    pub fn axis_delta(&self, axis: usize) -> (delta: i16)
        requires
            self.wf(),
            axis < self@.axes.len(),
            i16::MIN <= self@.axes[axis as int] - self@.last_axes[axis as int] <= i16::MAX,
        ensures
            delta == self@.axes[axis as int] - self@.last_axes[axis as int],
    {
        self.axes[axis] - self.last_axes[axis]
    }

    /// Whether an axis has gone beyond a threshold since the last digest.
    pub fn is_axis_leaving_threshold(&self, axis: usize, threshold: i16) -> (leaving: bool)
        requires
            self.wf(),
            axis < self@.axes.len(),
        ensures
            leaving == self@.axis_leaving_threshold(axis as int, threshold),
    {
        (threshold > 0 && self.axes[axis] > threshold && self.last_axes[axis] <= threshold) || (
        threshold < 0 && self.axes[axis] < threshold && self.last_axes[axis] <= threshold)
    }

    /// Sets the value of an axis.
    fn set_axis(&mut self, axis: usize, value: i16)
        requires
            old(self).wf(),
            axis < old(self)@.axes.len(),
        ensures
            final(self).wf(),
            final(self)@ == (ControllerView {
                axes: old(self)@.axes.update(axis as int, value),
                ..old(self)@
            }),
    {
        self.axes.set(axis, value);
    }

    /// Notes that a button is held.
    fn hold_button(&mut self, button: ST::Button)
        requires
            old(self).wf(),
        ensures
            final(self).wf(),
            final(self)@.axes == old(self)@.axes,
            final(self)@.last_axes == old(self)@.last_axes,
            final(self)@.last_buttons_held == old(self)@.last_buttons_held,
            buttons_are_sound::<ST>() ==> final(self)@.buttons_held == old(
                self,
            )@.buttons_held.insert(button),
    {
        self.buttons_held.insert(button);
    }

    /// Notes that a button is let go.
    fn release_button(&mut self, button: ST::Button)
        requires
            old(self).wf(),
        ensures
            final(self).wf(),
            final(self)@.axes == old(self)@.axes,
            final(self)@.last_axes == old(self)@.last_axes,
            final(self)@.last_buttons_held == old(self)@.last_buttons_held,
            buttons_are_sound::<ST>() ==> final(self)@.buttons_held == old(
                self,
            )@.buttons_held.remove(button),
    {
        self.buttons_held.remove(&button);
    }

    /// Takes what is held now as what was held last.
    pub fn digest(&mut self)
        ensures
            final(self).wf(),
            old(self)@.digested_but_for_buttons(final(self)@),
            buttons_are_sound::<ST>() ==> final(self)@ == old(self)@.digested(),
    {
        self.last_buttons_held = clone_set(&self.buttons_held);
        self.last_axes = self.axes.clone();
    }
}

/// What a [`State`] holds.
#[verifier::reject_recursive_types(K)]
#[verifier::reject_recursive_types(B)]
pub struct StateView<K, B> {
    pub keys_held: Set<K>,
    pub last_keys_held: Set<K>,
    pub controllers: Map<u32, ControllerView<B>>,
}

impl<K, B> StateView<K, B> {
    /// Every controller is in order.
    pub open spec fn wf(self) -> bool {
        forall|id: u32|
            (#[trigger] self.controllers.contains_key(id)) ==> self.controllers[id].wf()
    }

    /// The state after a digest: what is held now is what was held last, on
    /// the keyboard and on every controller.
    pub open spec fn digested(self) -> StateView<K, B> {
        StateView {
            keys_held: self.keys_held,
            last_keys_held: self.keys_held,
            controllers: self.controllers.map_values(|c: ControllerView<B>| c.digested()),
        }
    }

    /// Whether `after` is this state but for the buttons that are held on
    /// the controller `id`: the keyboard, every other controller, and the
    /// axes of that controller are as they were.
    pub open spec fn differs_in_buttons_held_on(self, after: StateView<K, B>, id: u32) -> bool {
        &&& after.keys_held == self.keys_held
        &&& after.last_keys_held == self.last_keys_held
        &&& after.controllers.dom() == self.controllers.dom()
        &&& forall|other: u32|
            (#[trigger] self.controllers.contains_key(other)) ==> (if other == id {
                self.controllers[other].differs_in_buttons_held(after.controllers[other])
            } else {
                after.controllers[other] == self.controllers[other]
            })
    }

    /// Whether `after` is this state digested, but for what was held last:
    /// what is held now stays, on the keyboard and on every controller, and
    /// the axes of every controller are taken as the axes of last time.
    pub open spec fn digested_but_for_held(self, after: StateView<K, B>) -> bool {
        &&& after.keys_held == self.keys_held
        &&& after.controllers.dom() == self.controllers.dom()
        &&& forall|id: u32|
            (#[trigger] self.controllers.contains_key(id))
                ==> self.controllers[id].digested_but_for_buttons(after.controllers[id])
    }

    /// The state with the controller `id` changed to `controller`, where it
    /// is connected.
    pub open spec fn with_controller(self, id: u32, controller: ControllerView<B>) -> StateView<
        K,
        B,
    > {
        if self.controllers.contains_key(id) {
            StateView { controllers: self.controllers.insert(id, controller), ..self }
        } else {
            self
        }
    }
}

/// The state of the keyboard and of the controllers that are connected.
pub struct State<ST> where ST: StateTypes {
    keys_held: HashSet<ST::Key>,
    last_keys_held: HashSet<ST::Key>,
    controllers: HashMap<u32, ControllerState<ST>>,
}

impl<ST> View for State<ST> where ST: StateTypes {
    type V = StateView<ST::Key, ST::Button>;

    closed spec fn view(&self) -> StateView<ST::Key, ST::Button> {
        StateView {
            keys_held: self.keys_held@,
            last_keys_held: self.last_keys_held@,
            controllers: self.controllers@.map_values(|c: ControllerState<ST>| c@),
        }
    }
}

impl<ST> State<ST> where ST: StateTypes {
    /// The invariant of the state.
    pub open spec fn wf(&self) -> bool {
        self@.wf()
    }

    /// A state with no key held and no controller connected.
    pub fn new() -> (made: Self)
        ensures
            made.wf(),
            made@.keys_held == Set::<ST::Key>::empty(),
            made@.last_keys_held == Set::<ST::Key>::empty(),
            made@.controllers == Map::<u32, ControllerView<ST::Button>>::empty(),
    {
        let made = Self {
            last_keys_held: HashSet::new(),
            keys_held: HashSet::new(),
            controllers: HashMap::new(),
        };
        made
    }

    /// A key has gone up.
    pub fn handle_key_up(&mut self, key: ST::Key)
        ensures
            old(self).wf() ==> final(self).wf(),
            final(self)@.last_keys_held == old(self)@.last_keys_held,
            final(self)@.controllers == old(self)@.controllers,
            keys_are_sound::<ST>() ==> final(self)@.keys_held == old(self)@.keys_held.remove(key),
    {
        self.keys_held.remove(&key);
        assert(self@.controllers == old(self)@.controllers);
    }

    /// A key has gone down.
    pub fn handle_key_down(&mut self, key: ST::Key)
        ensures
            old(self).wf() ==> final(self).wf(),
            final(self)@.last_keys_held == old(self)@.last_keys_held,
            final(self)@.controllers == old(self)@.controllers,
            keys_are_sound::<ST>() ==> final(self)@.keys_held == old(self)@.keys_held.insert(key),
    {
        self.keys_held.insert(key);
        assert(self@.controllers == old(self)@.controllers);
    }

    /// An axis of a controller has moved. Nothing changes where the
    /// controller is not connected.
    pub fn handle_controller_axis_motion(&mut self, id: u32, axis: usize, value: i16)
        requires
            old(self).wf(),
            old(self)@.controllers.contains_key(id) ==> axis < old(
                self,
            )@.controllers[id].axes.len(),
        ensures
            final(self).wf(),
            final(self)@ == old(self)@.with_controller(
                id,
                ControllerView {
                    axes: old(self)@.controllers[id].axes.update(axis as int, value),
                    ..old(self)@.controllers[id]
                },
            ),
    {
        let removed = self.controllers.remove(&id);
        match removed {
            Some(mut controller) => {
                controller.set_axis(axis, value);
                self.controllers.insert(id, controller);
                assert(final(self)@.controllers =~= old(self)@.controllers.insert(
                    id,
                    controller@,
                ));
            },
            None => {
                assert(final(self)@.controllers =~= old(self)@.controllers);
            },
        }
    }

    /// A button of a controller has gone up. Nothing changes where the
    /// controller is not connected.
    pub fn handle_controller_button_up(&mut self, id: u32, button: ST::Button)
        requires
            old(self).wf(),
        ensures
            final(self).wf(),
            old(self)@.differs_in_buttons_held_on(final(self)@, id),
            !old(self)@.controllers.contains_key(id) ==> final(self)@ == old(self)@,
            buttons_are_sound::<ST>() ==> final(self)@ == old(self)@.with_controller(
                id,
                ControllerView {
                    buttons_held: old(self)@.controllers[id].buttons_held.remove(button),
                    ..old(self)@.controllers[id]
                },
            ),
    {
        let removed = self.controllers.remove(&id);
        match removed {
            Some(mut controller) => {
                assert(old(self)@.controllers.contains_key(id));
                controller.release_button(button);
                self.controllers.insert(id, controller);
                assert(final(self)@.controllers =~= old(self)@.controllers.insert(
                    id,
                    controller@,
                ));
            },
            None => {
                assert(final(self)@.controllers =~= old(self)@.controllers);
            },
        }
    }

    /// A button of a controller has gone down. Nothing changes where the
    /// controller is not connected.
    pub fn handle_controller_button_down(&mut self, id: u32, button: ST::Button)
        requires
            old(self).wf(),
        ensures
            final(self).wf(),
            old(self)@.differs_in_buttons_held_on(final(self)@, id),
            !old(self)@.controllers.contains_key(id) ==> final(self)@ == old(self)@,
            buttons_are_sound::<ST>() ==> final(self)@ == old(self)@.with_controller(
                id,
                ControllerView {
                    buttons_held: old(self)@.controllers[id].buttons_held.insert(button),
                    ..old(self)@.controllers[id]
                },
            ),
    {
        let removed = self.controllers.remove(&id);
        match removed {
            Some(mut controller) => {
                assert(old(self)@.controllers.contains_key(id));
                controller.hold_button(button);
                self.controllers.insert(id, controller);
                assert(final(self)@.controllers =~= old(self)@.controllers.insert(
                    id,
                    controller@,
                ));
            },
            None => {
                assert(final(self)@.controllers =~= old(self)@.controllers);
            },
        }
    }

    /// A controller has been connected: it starts with its axes at rest and
    /// no button held, whatever was known of it before.
    pub fn handle_controller_connected(&mut self, id: u32, num_axes: usize)
        requires
            old(self).wf(),
        ensures
            final(self).wf(),
            final(self)@ == (StateView {
                controllers: old(self)@.controllers.insert(
                    id,
                    ControllerView {
                        buttons_held: Set::empty(),
                        last_buttons_held: Set::empty(),
                        axes: Seq::new(num_axes as nat, |i: int| 0i16),
                        last_axes: Seq::new(num_axes as nat, |i: int| 0i16),
                    },
                ),
                ..old(self)@
            }),
    {
        let controller = ControllerState::<ST>::new(num_axes);
        self.controllers.insert(id, controller);
        assert(final(self)@.controllers =~= old(self)@.controllers.insert(id, controller@));
    }

    /// A controller has been disconnected.
    pub fn handle_controller_disconnected(&mut self, id: u32)
        requires
            old(self).wf(),
        ensures
            final(self).wf(),
            final(self)@ == (StateView {
                controllers: old(self)@.controllers.remove(id),
                ..old(self)@
            }),
    {
        self.controllers.remove(&id);
        assert(final(self)@.controllers =~= old(self)@.controllers.remove(id));
    }

    /// No key is held any more.
    pub fn clear_keys(&mut self)
        ensures
            old(self).wf() ==> final(self).wf(),
            final(self)@ == (StateView { keys_held: Set::empty(), ..old(self)@ }),
    {
        self.keys_held.clear();
    }

    /// Whether the key is held now and was not at the last digest.
    pub fn is_key_pressed(&self, key: ST::Key) -> (pressed: bool)
        ensures
            keys_are_sound::<ST>() ==> pressed == (!self@.last_keys_held.contains(key)
                && self@.keys_held.contains(key)),
    {
        !self.last_keys_held.contains(&key) && self.keys_held.contains(&key)
    }

    /// Whether the key was held at the last digest and is not now.
    pub fn is_key_released(&self, key: ST::Key) -> (released: bool)
        ensures
            keys_are_sound::<ST>() ==> released == (self@.last_keys_held.contains(key)
                && !self@.keys_held.contains(key)),
    {
        self.last_keys_held.contains(&key) && !self.keys_held.contains(&key)
    }

    /// Whether the key is held now.
    pub fn is_key_held(&self, key: ST::Key) -> (held: bool)
        ensures
            keys_are_sound::<ST>() ==> held == self@.keys_held.contains(key),
    {
        self.keys_held.contains(&key)
    }

    /// The ids of the controllers that are connected, each once.
    pub fn controller_ids(&self) -> (ids: Vec<u32>)
        ensures
            ids@.no_duplicates(),
            ids@.to_set() == self@.controllers.dom(),
    {
        let mut ids: Vec<u32> = Vec::new();
        let ghost all: Seq<u32> = self.controllers.keys().remaining().unref();
        for id in it: self.controllers.keys()
            invariant
                it.seq().unref() == all,
                ids@.len() == it.index(),
                forall|i: int| 0 <= i < ids@.len() ==> ids@[i] == all[i],
        {
            ids.push(*id);
        }
        assert(ids@ =~= all);
        ids
    }

    /// The controllers that are connected, each once with its id, in no
    /// particular order.
    pub fn iter_controllers(&self) -> (controllers: Vec<(u32, &ControllerState<ST>)>)
        ensures
            controllers@.len() == self@.controllers.dom().len(),
            controllers@.map_values(|entry: (u32, &ControllerState<ST>)| entry.0).no_duplicates(),
            controllers@.map_values(|entry: (u32, &ControllerState<ST>)| entry.0).to_set()
                == self@.controllers.dom(),
            forall|i: int|
                0 <= i < controllers@.len() ==> {
                    &&& self@.controllers.contains_key((#[trigger] controllers@[i]).0)
                    &&& self@.controllers[controllers@[i].0] == controllers@[i].1@
                },
    {
        let ids = self.controller_ids();
        let mut controllers: Vec<(u32, &ControllerState<ST>)> = Vec::new();
        let mut i: usize = 0;
        while i < ids.len()
            invariant
                i <= ids@.len(),
                ids@.to_set() == self@.controllers.dom(),
                controllers@.len() == i,
                forall|j: int| 0 <= j < i ==> (#[trigger] controllers@[j]).0 == ids@[j],
                forall|j: int|
                    0 <= j < i ==> self@.controllers[ids@[j]] == (#[trigger] controllers@[j]).1@,
            decreases ids@.len() - i,
        {
            let id: u32 = ids[i];
            assert(self.controllers@.dom() =~= self@.controllers.dom());
            match self.controllers.get(&id) {
                Some(controller) => {
                    controllers.push((id, controller));
                },
                None => {
                    assert(false);
                },
            }
            i = i + 1;
        }
        proof {
            let seen = controllers@.map_values(|entry: (u32, &ControllerState<ST>)| entry.0);
            assert(seen =~= ids@);
            ids@.unique_seq_to_set();
        }
        controllers
    }

    /// Takes what is held now as what was held last, on the keyboard and on
    /// every controller.
    pub fn digest(&mut self)
        requires
            old(self).wf(),
        ensures
            final(self).wf(),
            old(self)@.digested_but_for_held(final(self)@),
            keys_are_sound::<ST>() ==> final(self)@.last_keys_held == old(self)@.keys_held,
            buttons_are_sound::<ST>() ==> final(self)@.controllers == old(
                self,
            )@.digested().controllers,
            keys_are_sound::<ST>() && buttons_are_sound::<ST>() ==> final(self)@ == old(
                self,
            )@.digested(),
    {
        self.last_keys_held = clone_set(&self.keys_held);
        let ids = self.controller_ids();
        let mut i: usize = 0;
        while i < ids.len()
            invariant
                i <= ids@.len(),
                ids@.no_duplicates(),
                ids@.to_set() == old(self)@.controllers.dom(),
                self.wf(),
                self@.keys_held == old(self)@.keys_held,
                keys_are_sound::<ST>() ==> self@.last_keys_held == old(self)@.keys_held,
                self@.controllers.dom() == old(self)@.controllers.dom(),
                forall|j: int|
                    0 <= j < ids@.len() ==> (if j < i {
                        old(self)@.controllers[ids@[j]].digested_but_for_buttons(
                            self@.controllers[#[trigger] ids@[j]],
                        )
                    } else {
                        self@.controllers[ids@[j]] == old(self)@.controllers[ids@[j]]
                    }),
                buttons_are_sound::<ST>() ==> forall|j: int|
                    0 <= j < i ==> self@.controllers[#[trigger] ids@[j]] == old(
                        self,
                    )@.controllers[ids@[j]].digested(),
            decreases ids@.len() - i,
        {
            let id: u32 = ids[i];
            assert(ids@.to_set().contains(id));
            let removed = self.controllers.remove(&id);
            match removed {
                Some(mut controller) => {
                    controller.digest();
                    self.controllers.insert(id, controller);
                },
                None => {
                    assert(false);
                },
            }
            i = i + 1;
        }
        proof {
            assert forall|id: u32| #[trigger]
                old(self)@.controllers.contains_key(id) implies old(
                self,
            )@.controllers[id].digested_but_for_buttons(self@.controllers[id]) by {
                let j = choose|j: int| 0 <= j < ids@.len() && ids@[j] == id;
                assert(old(self)@.controllers[ids@[j]].digested_but_for_buttons(
                    self@.controllers[ids@[j]],
                ));
            }
            if buttons_are_sound::<ST>() {
                assert forall|id: u32|
                    self@.controllers.contains_key(id) implies #[trigger] self@.controllers[id]
                    == old(self)@.controllers[id].digested() by {
                    let j = choose|j: int| 0 <= j < ids@.len() && ids@[j] == id;
                    assert(self@.controllers[ids@[j]] == old(
                        self,
                    )@.controllers[ids@[j]].digested());
                }
            }
        }
    }
}

} // verus!
