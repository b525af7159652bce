//! The parameters that a plugin reports.
//!
//! The caller asks the plugin for its parameters whenever it needs them and
//! hands the list over; nothing is kept between two calls, since a plugin
//! may change what it reports.

use vstd::prelude::*;
use crate::event::Binary64;

verus! {

/// What a plugin says of one of its parameters.
#[derive(Debug)]
pub struct ParamDescriptor {
    pub id: u32,
    pub name: String,
    /// The module that the parameter belongs to; empty where it has none.
    pub module: String,
    pub min_value: Binary64,
    pub max_value: Binary64,
    pub default_value: Binary64,
}

impl ParamDescriptor {
    /// The module that the parameter belongs to, if it has one.
    pub fn module(&self) -> (module: Option<&str>)
        ensures
            self.module@.len() == 0 ==> module.is_none(),
            self.module@.len() > 0 ==> module.is_some() && module.unwrap()@ == self.module@,
    {
        let text = self.module.as_str();
        if text.is_empty() {
            None
        } else {
            Some(text)
        }
    }
}

/// Whether `place` is the first place in `params` that holds a parameter
/// with this id.
pub open spec fn is_first_with_id(params: Seq<ParamDescriptor>, id: u32, place: int) -> bool {
    &&& 0 <= place < params.len()
    &&& params[place].id == id
    &&& forall|j: int| 0 <= j < place ==> (#[trigger] params[j]).id != id
}

/// The first of `params` with this id, or `None` where none has it.
pub fn param_info(params: &Vec<ParamDescriptor>, id: u32) -> (found: Option<&ParamDescriptor>)
    ensures
        match found {
            Some(param) => exists|place: int|
                is_first_with_id(params@, id, place) && *param == params@[place],
            None => forall|j: int| 0 <= j < params@.len() ==> (#[trigger] params@[j]).id != id,
        },
{
    let mut i: usize = 0;
    while i < params.len()
        invariant
            i <= params.len(),
            forall|j: int| 0 <= j < i ==> (#[trigger] params@[j]).id != id,
        decreases params.len() - i,
    {
        if params[i].id == id {
            assert(is_first_with_id(params@, id, i as int));
            return Some(&params[i]);
        }
        i = i + 1;
    }
    None
}

} // verus!
