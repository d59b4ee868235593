//! Descriptor set layouts: the bindings a layout is created with.

use vstd::prelude::*;

pub mod params;

use params::{DescriptorSetLayoutBinding, DescriptorSetLayoutBindingInfo};

verus! {

/// The bindings a layout created from `bindings` has: binding `i` is the
/// `i`-th given binding, numbered `i`.
pub open spec fn numbered_bindings<'a>(bindings: Seq<DescriptorSetLayoutBinding<'a>>) -> Seq<DescriptorSetLayoutBindingInfo<'a>> {
    Seq::new(
        bindings.len(),
        |i: int| DescriptorSetLayoutBindingInfo { binding: i as u32, ..bindings[i].spec_into() },
    )
}

/// The bindings of a descriptor set layout created from `bindings`, numbered by
/// their position.
pub fn layout_bindings<'a>(bindings: &[DescriptorSetLayoutBinding<'a>]) -> (r: Vec<DescriptorSetLayoutBindingInfo<'a>>)
    requires
        bindings@.len() <= u32::MAX + 1,
        forall|i: int| 0 <= i < bindings@.len() ==> #[trigger] bindings@[i].into_requires(),
    ensures
        r@ == numbered_bindings(bindings@),
{
    let mut result: Vec<DescriptorSetLayoutBindingInfo<'a>> = Vec::new();
    let mut index: usize = 0;
    while index < bindings.len()
        invariant
            index <= bindings@.len(),
            bindings@.len() <= u32::MAX + 1,
            forall|i: int| 0 <= i < bindings@.len() ==> #[trigger] bindings@[i].into_requires(),
            result@ =~= numbered_bindings(bindings@).take(index as int),
        decreases bindings.len() - index,
    {
        let info = bindings[index].into();
        result.push(DescriptorSetLayoutBindingInfo { binding: index as u32, ..info });
        index = index + 1;
    }
    result
}

/// A layout has one binding per given binding, in order: binding `i` is numbered `i`
/// and has the type, count, stages and immutable samplers of the `i`-th given binding;
/// in particular a sampler binding is a plain sampler (0) unless combined with an
/// image (1).
pub proof fn lemma_layout_binding_numbering<'a>(bindings: Seq<DescriptorSetLayoutBinding<'a>>, i: int)
    requires
        bindings.len() <= u32::MAX + 1,
        0 <= i < bindings.len(),
    ensures
        numbered_bindings(bindings).len() == bindings.len(),
        numbered_bindings(bindings)[i].binding == i,
        numbered_bindings(bindings)[i].descriptor_type == bindings[i].spec_into().descriptor_type,
        numbered_bindings(bindings)[i].descriptor_count == bindings[i].spec_into().descriptor_count,
        numbered_bindings(bindings)[i].stage_flags == bindings[i].spec_into().stage_flags,
        numbered_bindings(bindings)[i].immutable_samplers == bindings[i].spec_into().immutable_samplers,
        bindings[i] matches DescriptorSetLayoutBinding::ImmutableSamplers(combined, _, _)
            ==> numbered_bindings(bindings)[i].descriptor_type == if combined { 1i32 } else { 0i32 },
        bindings[i] matches DescriptorSetLayoutBinding::Samplers(combined, _, _)
            ==> numbered_bindings(bindings)[i].descriptor_type == if combined { 1i32 } else { 0i32 },
{
}

} // verus!
