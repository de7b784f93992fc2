//! An accumulator of parameters that is finalized into a `Transformer`.
use std::collections::HashMap;
use std::hash::RandomState;

use vstd::prelude::*;

use crate::error::Error;
use crate::format::Format;
use crate::point::Parameter;
use crate::transformer::Transformer;

verus! {

/// The map of no parameters.
pub open spec fn no_parameters() -> Map<u32, Parameter> {
    Map::empty()
}

/// Relies on `HashMap::with_hasher`: the map it makes is empty.
#[verifier::external_body]
fn empty_with_hasher(hash_builder: RandomState) -> (r: HashMap<u32, Parameter>)
    ensures
        r@ == no_parameters(),
{
    HashMap::with_hasher(hash_builder)
}

/// Relies on `HashMap::with_capacity_and_hasher`: the map it makes is empty.
#[verifier::external_body]
fn empty_with_capacity_and_hasher(capacity: usize, hash_builder: RandomState) -> (r: HashMap<u32, Parameter>)
    ensures
        r@ == no_parameters(),
{
    HashMap::with_capacity_and_hasher(capacity, hash_builder)
}

/// Relies on `HashMap::shrink_to_fit`: it changes the capacity alone, not
/// the entries.
#[verifier::external_body]
fn shrink_map(m: &mut HashMap<u32, Parameter>)
    ensures
        final(m)@ == old(m)@,
{
    m.shrink_to_fit()
}

/// The map after inserting the pairs of `s` in order, later pairs replacing
/// earlier ones with the same meshcode.
pub open spec fn inserted_all(m: Map<u32, Parameter>, s: Seq<(u32, Parameter)>) -> Map<
    u32,
    Parameter,
>
    decreases s.len(),
{
    if s.len() == 0 {
        m
    } else {
        inserted_all(m, s.drop_last()).insert(s.last().0, s.last().1)
    }
}

/// Collects a format and parameters, then builds a `Transformer`.
#[derive(Clone, Debug)]
pub struct TransformerBuilder {
    format: Option<Format>,
    parameter: HashMap<u32, Parameter>,
}

impl TransformerBuilder {
    /// The format chosen so far, if any.
    pub closed spec fn spec_format(&self) -> Option<Format> {
        self.format
    }

    /// The parameters collected so far.
    pub closed spec fn spec_parameters(&self) -> Map<u32, Parameter> {
        self.parameter@
    }

    /// A builder with no format and no parameters.
    pub fn new() -> (r: TransformerBuilder)
        ensures
            r.spec_format() is None,
            r.spec_parameters() == no_parameters(),
    {
        TransformerBuilder { format: None, parameter: HashMap::new() }
    }

    /// A builder with no format and no parameters, with room for at least
    /// `capacity` parameters.
    pub fn with_capacity(capacity: usize) -> (r: TransformerBuilder)
        ensures
            r.spec_format() is None,
            r.spec_parameters() == no_parameters(),
    {
        TransformerBuilder { format: None, parameter: HashMap::with_capacity(capacity) }
    }

    /// A builder with no format and no parameters, whose map hashes
    /// meshcodes with `hash_builder`.
    pub fn with_hasher(hash_builder: RandomState) -> (r: TransformerBuilder)
        ensures
            r.spec_format() is None,
            r.spec_parameters() == no_parameters(),
    {
        TransformerBuilder { format: None, parameter: empty_with_hasher(hash_builder) }
    }

    /// A builder with no format and no parameters, with room for at least
    /// `capacity` parameters, whose map hashes meshcodes with `hash_builder`.
    pub fn with_capacity_and_hasher(capacity: usize, hash_builder: RandomState) -> (r:
        TransformerBuilder)
        ensures
            r.spec_format() is None,
            r.spec_parameters() == no_parameters(),
    {
        TransformerBuilder {
            format: None,
            parameter: empty_with_capacity_and_hasher(capacity, hash_builder),
        }
    }

    /// Sets the format.
    pub fn format(self, format: Format) -> (r: TransformerBuilder)
        ensures
            r.spec_format() == Some(format),
            r.spec_parameters() == self.spec_parameters(),
    {
        TransformerBuilder { format: Some(format), parameter: self.parameter }
    }

    /// Builds the transformer; `FormatNotAssigned` when no format was set.
    pub fn build(self) -> (r: Result<Transformer, Error>)
        ensures
            r is Ok <==> self.spec_format() is Some,
            r is Ok ==> r->Ok_0.spec_format() == self.spec_format()->Some_0 && r->Ok_0.grid()
                == self.spec_parameters(),
            r is Err ==> r->Err_0 == Error::FormatNotAssigned,
    {
        match self.format {
            Some(format) => Ok(Transformer::new(format, self.parameter)),
            None => Err(Error::FormatNotAssigned),
        }
    }

    /// Adds a parameter, replacing any earlier one for the same meshcode.
    pub fn parameter(self, meshcode: u32, parameter: Parameter) -> (r: TransformerBuilder)
        ensures
            r.spec_format() == self.spec_format(),
            r.spec_parameters() == self.spec_parameters().insert(meshcode, parameter),
    {
        let mut b = self;
        b.parameter.insert(meshcode, parameter);
        b
    }

    /// Adds parameters in order; a later pair replaces an earlier one for the
    /// same meshcode.
    pub fn parameters(self, parameters: Vec<(u32, Parameter)>) -> (r: TransformerBuilder)
        ensures
            r.spec_format() == self.spec_format(),
            r.spec_parameters() == inserted_all(self.spec_parameters(), parameters@),
    {
        let mut b = self;
        let mut i: usize = 0;
        while i < parameters.len()
            invariant
                i <= parameters@.len(),
                b.spec_format() == self.spec_format(),
                b.spec_parameters() == inserted_all(self.spec_parameters(), parameters@.take(
                    i as int,
                )),
            decreases parameters@.len() - i,
        {
            let (meshcode, parameter) = parameters[i];
            b.parameter.insert(meshcode, parameter);
            assert(parameters@.take(i + 1).drop_last() == parameters@.take(i as int));
            i = i + 1;
        }
        assert(parameters@.take(i as int) == parameters@);
        b
    }

    /// Shrinks the capacity of the parameter map as much as possible.
    pub fn shrink_to_fit(self) -> (r: TransformerBuilder)
        ensures
            r.spec_format() == self.spec_format(),
            r.spec_parameters() == self.spec_parameters(),
    {
        let mut b = self;
        shrink_map(&mut b.parameter);
        b
    }
}

impl Default for TransformerBuilder {
    fn default() -> (r: TransformerBuilder)
        ensures
            r.spec_format() is None,
            r.spec_parameters() == no_parameters(),
    {
        TransformerBuilder::new()
    }
}

} // verus!
