//! The instance component: the placements of the copies of a mesh, and the
//! buffer that hands them to the device.

use crate::ecs::component::{Component, ComponentView, Renderable};
use crate::layout::{cast_words, native_layout, WORD_BYTES};
use vstd::prelude::*;

verus! {

/// Words in one instance record.
pub const INSTANCE_WORDS: usize = 16;

/// Bytes from one instance record to the next.
pub const INSTANCE_STRIDE: usize = INSTANCE_WORDS * WORD_BYTES;

/// The packed transform of one copy: a four-by-four matrix, each entry kept
/// as the bit pattern of its single-precision value. What the sixteen
/// words mean is the shader's business; here they are carried and counted.
#[derive(Clone, Copy, Debug, PartialEq, Eq)]
pub struct InstanceRaw {
    pub model: [u32; 16],
}

/// The words of a run of instance records: record after record, no padding.
pub open spec fn instance_words(instances: Seq<InstanceRaw>) -> Seq<u32> {
    Seq::new(16 * instances.len(), |k: int| instances[k / 16].model[k % 16])
}

/// The contents of the instance buffer that mirrors `instances`.
pub open spec fn instance_bytes(instances: Seq<InstanceRaw>) -> Seq<u8> {
    native_layout(instance_words(instances))
}

/// Flattens instance records into their words.
pub fn flatten_instances(instances: &Vec<InstanceRaw>) -> (words: Vec<u32>)
    ensures
        words@ == instance_words(instances@),
{
    let mut words: Vec<u32> = Vec::new();
    let mut i: usize = 0;
    while i < instances.len()
        invariant
            i <= instances.len(),
            words@.len() == 16 * i,
            forall|k: int| 0 <= k < 16 * i ==> words@[k] == instances@[k / 16].model[k % 16],
        decreases instances.len() - i,
    {
        let record = &instances[i];
        let mut j: usize = 0;
        while j < 16
            invariant
                i < instances.len(),
                *record == instances@[i as int],
                j <= 16,
                words@.len() == 16 * i + j,
                forall|k: int|
                    0 <= k < 16 * i + j ==> words@[k] == instances@[k / 16].model[k % 16],
            decreases 16 - j,
        {
            words.push(record.model[j]);
            proof {
                let last = 16 * i + j;
                assert(last / 16 == i && last % 16 == j);
            }
            j = j + 1;
        }
        i = i + 1;
    }
    assert(words@ =~= instance_words(instances@));
    words
}

/// More instances than a draw call can count.
#[derive(Clone, Copy, Debug, PartialEq, Eq)]
pub struct TooManyInstances {
    pub count: usize,
}

/// An instance component as contracts see it.
pub struct InstanceView {
    pub instances: Seq<InstanceRaw>,
    pub instance_buffer: Seq<u8>,
}

impl InstanceView {
    /// The component that construction from these records gives.
    pub open spec fn fresh(instances: Seq<InstanceRaw>) -> InstanceView {
        InstanceView { instances, instance_buffer: instance_bytes(instances) }
    }

    /// What holds of every instance component: a draw call can count its
    /// instances, and its buffer mirrors them byte for byte.
    pub open spec fn wf(self) -> bool {
        &&& self.instances.len() <= u32::MAX
        &&& self.instance_buffer == instance_bytes(self.instances)
    }
}

/// The buffer of a component holds as many records as the component has
/// instances: sixty-four bytes for each.
pub proof fn lemma_instance_buffer_len(component: InstanceView)
    requires
        component.wf(),
    ensures
        component.instance_buffer.len() == 64 * component.instances.len(),
{
}

/// Per-instance transforms in draw order, with the buffer that is bound
/// beside the vertex buffer of a mesh.
pub struct InstanceComponent {
    instances: Vec<InstanceRaw>,
    instance_buffer: Vec<u8>,
    num_instances: u32,
}

impl View for InstanceComponent {
    type V = InstanceView;

    closed spec fn view(&self) -> InstanceView {
        InstanceView { instances: self.instances@, instance_buffer: self.instance_buffer@ }
    }
}

impl InstanceComponent {
    #[verifier::type_invariant]
    spec fn inv(self) -> bool {
        &&& self@.wf()
        &&& self.num_instances == self.instances@.len()
    }

    /// The number of instances as a draw call carries it, if it can.
    pub fn check_instance_count(count: usize) -> (r: Result<u32, TooManyInstances>)
        ensures
            r is Ok <==> count <= u32::MAX,
            match r {
                Ok(n) => n == count,
                Err(e) => e.count == count,
            },
    {
        if count > u32::MAX as usize {
            Err(TooManyInstances { count })
        } else {
            Ok(count as u32)
        }
    }

    /// A component of the given instances, packed into its buffer.
    pub fn new(instances: Vec<InstanceRaw>) -> (r: Result<Self, TooManyInstances>)
        ensures
            r is Ok <==> instances@.len() <= u32::MAX,
            match r {
                Ok(component) => component@ == InstanceView::fresh(instances@),
                Err(e) => e.count == instances@.len(),
            },
    {
        match Self::check_instance_count(instances.len()) {
            Err(e) => Err(e),
            Ok(num_instances) => {
                let instance_buffer = Self::generate_buffer(&instances);
                Ok(InstanceComponent { instances, instance_buffer, num_instances })
            },
        }
    }

    /// Takes new instances in place of the old and rebuilds the buffer from
    /// them. Too many are turned down, and the component stays as it was.
    pub fn update(&mut self, new_instances: Vec<InstanceRaw>) -> (r: Result<(), TooManyInstances>)
        ensures
            r is Ok <==> new_instances@.len() <= u32::MAX,
            match r {
                Ok(()) => final(self)@ == InstanceView::fresh(new_instances@),
                Err(e) => e.count == new_instances@.len() && final(self)@ == old(self)@,
            },
    {
        match Self::check_instance_count(new_instances.len()) {
            Err(e) => Err(e),
            Ok(num_instances) => {
                let instance_buffer = Self::generate_buffer(&new_instances);
                *self = InstanceComponent {
                    instances: new_instances,
                    instance_buffer,
                    num_instances,
                };
                Ok(())
            },
        }
    }

    /// The instances in draw order.
    pub fn instances(&self) -> (instances: &[InstanceRaw])
        ensures
            instances@ == self@.instances,
    {
        self.instances.as_slice()
    }

    /// The contents of the instance buffer: the instances as the device
    /// reads them, sixty-four bytes each.
    pub fn instance_buffer(&self) -> (bytes: &[u8])
        ensures
            bytes@ == self@.instance_buffer,
            bytes@ == instance_bytes(self@.instances),
            bytes@.len() == 64 * self@.instances.len(),
    {
        proof {
            use_type_invariant(self);
        }
        self.instance_buffer.as_slice()
    }

    /// The instance buffer of the given records.
    fn generate_buffer(instances: &Vec<InstanceRaw>) -> (buffer: Vec<u8>)
        ensures
            buffer@ == instance_bytes(instances@),
    {
        let words = flatten_instances(instances);
        cast_words(words.as_slice())
    }

    /// How many copies a draw with these instances makes.
    pub fn num_instances(&self) -> (n: u32)
        ensures
            n == self@.instances.len(),
            self@.wf(),
    {
        proof {
            use_type_invariant(self);
        }
        self.num_instances
    }
}

impl Component for InstanceComponent {
    open spec fn renderable(&self) -> ComponentView {
        ComponentView::Instance(self@)
    }

    fn as_renderable(&self) -> (r: Renderable<'_>) {
        proof {
            use_type_invariant(self);
        }
        Renderable::Instance(self)
    }
}

} // verus!
