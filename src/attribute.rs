//! A free-standing attribute: a name and a value, both written as given.

use vstd::prelude::*;

verus! {

pub struct Attribute {
    pub name: String,
    pub value: String,
}

impl Attribute {
    /// Appends `name=value` to `out`.
    pub fn write(&self, out: &mut String)
        ensures
            final(out)@ == old(out)@ + self.name@ + "="@ + self.value@,
    {
        out.append(self.name.as_str());
        out.append("=");
        out.append(self.value.as_str());
        assert(out@ =~= old(out)@ + self.name@ + "="@ + self.value@);
    }
}

} // verus!
