//! The instance lifecycle: a slot of the rendering host holds at most one
//! component instance, together with the properties it was built from. On
//! each evaluation the instance is kept when the properties compare equal,
//! and replaced by a fresh one otherwise.
use vstd::prelude::*;
use vstd::pervasive::cloned;
use vstd::std_specs::cmp::PartialEqSpec;

verus! {

/// The properties of a component that takes none.
pub type NoProperties = ();

/// Builds a component instance from its properties.
pub trait FromProperties<P>: Sized {
    /// The instance that `from_properties` builds from `properties`.
    spec fn built_from(properties: P) -> Self;

    fn from_properties(properties: P) -> (r: Self)
        ensures
            r == Self::built_from(properties),
    ;
}

/// The live instance of a slot, the properties it was built from, and
/// whether its mount hook has run.
pub struct InstanceRecord<P, C> {
    pub properties: P,
    pub instance: C,
    pub mounted: bool,
}

/// One slot of the rendering host: absent, or holding one instance.
pub struct Slot<P, C> {
    current: Option<InstanceRecord<P, C>>,
}

impl<P, C> View for Slot<P, C> {
    type V = Option<InstanceRecord<P, C>>;

    closed spec fn view(&self) -> Option<InstanceRecord<P, C>> {
        self.current
    }
}

/// `after` and `rebuilt` are what evaluating a slot in state `before` with
/// properties `p` gives. An absent slot, or one whose properties do not
/// compare equal to `p`, gets a new, unmounted instance built from a clone
/// of `p`; otherwise the slot is left exactly as it was.
pub open spec fn evaluated<P: PartialEq + Clone, C: FromProperties<P>>(
    before: Option<InstanceRecord<P, C>>,
    p: P,
    after: Option<InstanceRecord<P, C>>,
    rebuilt: bool,
) -> bool {
    &&& before is None ==> rebuilt
    &&& P::obeys_eq_spec() ==> (rebuilt <==> !(before is Some && before->Some_0.properties.eq_spec(&p)))
    &&& !rebuilt ==> after == before
    &&& rebuilt ==> {
        &&& after is Some
        &&& after->Some_0.properties == p
        &&& !after->Some_0.mounted
        &&& exists|q: P| cloned(p, q) && after->Some_0.instance == C::built_from(q)
    }
}

/// `after` and `fire` are what `mount` gives on a slot in state `before`:
/// the hook fires once per instance, the first time it is asked for.
pub open spec fn mounted_once<P, C>(
    before: Option<InstanceRecord<P, C>>,
    after: Option<InstanceRecord<P, C>>,
    fire: bool,
) -> bool {
    &&& fire <==> (before is Some && !before->Some_0.mounted)
    &&& before is None ==> after is None
    &&& before is Some ==> after == Some(InstanceRecord { mounted: true, ..before->Some_0 })
}

impl<P, C> Slot<P, C> {
    /// A slot with no instance yet.
    pub fn new() -> (r: Self)
        ensures
            r@ is None,
    {
        Slot { current: None }
    }

    /// The live instance, if any.
    pub fn instance(&self) -> (r: Option<&C>)
        ensures
            r is Some <==> self@ is Some,
            r is Some ==> *r->Some_0 == self@->Some_0.instance,
    {
        match &self.current {
            Some(record) => Some(&record.instance),
            None => None,
        }
    }

    /// The properties the live instance was built from, if any.
    pub fn properties(&self) -> (r: Option<&P>)
        ensures
            r is Some <==> self@ is Some,
            r is Some ==> *r->Some_0 == self@->Some_0.properties,
    {
        match &self.current {
            Some(record) => Some(&record.properties),
            None => None,
        }
    }

    /// Marks the live instance as attached to the host's element tree, and
    /// says whether its mount hook is to run now.
    pub fn mount(&mut self) -> (fire: bool)
        ensures
            mounted_once(old(self)@, final(self)@, fire),
    {
        match &mut self.current {
            Some(record) => {
                let fire = !record.mounted;
                record.mounted = true;
                fire
            },
            None => false,
        }
    }
}

impl<P: PartialEq + Clone, C: FromProperties<P>> Slot<P, C> {
    /// Keeps the live instance when `properties` equals the properties it was
    /// built from; otherwise builds a new one and drops the old. Returns
    /// whether a new instance was built.
    pub fn evaluate(&mut self, properties: P) -> (rebuilt: bool)
        ensures
            evaluated(old(self)@, properties, final(self)@, rebuilt),
    {
        let keep = match &self.current {
            Some(record) => record.properties.eq(&properties),
            None => false,
        };
        if keep {
            false
        } else {
            let source = properties.clone();
            let instance = C::from_properties(source);
            self.current = Some(InstanceRecord { properties, instance, mounted: false });
            assert(cloned(properties, source));
            true
        }
    }
}

impl<P, C> Default for Slot<P, C> {
    fn default() -> (r: Self)
        ensures
            r@ is None,
    {
        Slot { current: None }
    }
}

} // verus!
