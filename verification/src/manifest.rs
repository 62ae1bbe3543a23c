//! The declarative manifest: which services are to run.

use vstd::prelude::*;

verus! {

/// One service to run: a name for the log, the program to launch and the
/// arguments to launch it with. Names need not be unique within a manifest.
#[derive(Clone, Debug, PartialEq, Eq)]
pub struct ServiceDescriptor {
    pub name: String,
    pub program: String,
    pub args: Vec<String>,
}

/// Mathematical value of a [`ServiceDescriptor`].
pub ghost struct ServiceModel {
    pub name: Seq<char>,
    pub program: Seq<char>,
    pub args: Seq<Seq<char>>,
}

/// The texts of a sequence of strings, in order.
pub open spec fn texts(strings: Seq<String>) -> Seq<Seq<char>> {
    Seq::new(strings.len(), |i: int| strings[i]@)
}

impl View for ServiceDescriptor {
    type V = ServiceModel;

    open spec fn view(&self) -> ServiceModel {
        ServiceModel { name: self.name@, program: self.program@, args: texts(self.args@) }
    }
}

/// The services of one parsed manifest file, in the order of the file.
#[derive(Clone, Debug, PartialEq, Eq)]
pub struct Manifest {
    pub services: Vec<ServiceDescriptor>,
}

/// The values of a sequence of descriptors, in order.
pub open spec fn models(services: Seq<ServiceDescriptor>) -> Seq<ServiceModel> {
    Seq::new(services.len(), |i: int| services[i]@)
}

impl View for Manifest {
    type V = Seq<ServiceModel>;

    open spec fn view(&self) -> Seq<ServiceModel> {
        models(self.services@)
    }
}

/// A copy of a list of strings.
pub fn duplicate_strings(strings: &Vec<String>) -> (out: Vec<String>)
    ensures
        texts(out@) == texts(strings@),
{
    let mut out: Vec<String> = Vec::new();
    let mut at: usize = 0;
    while at < strings.len()
        invariant
            at <= strings@.len(),
            out@.len() == at,
            forall|i: int| 0 <= i < at ==> (#[trigger] out@[i])@ == strings@[i]@,
        decreases strings@.len() - at,
    {
        out.push(strings[at].clone());
        at = at + 1;
    }
    assert(texts(out@) =~= texts(strings@));
    out
}

impl ServiceDescriptor {
    /// A copy with the same name, program and arguments.
    pub fn duplicate(&self) -> (out: ServiceDescriptor)
        ensures
            out@ == self@,
    {
        ServiceDescriptor {
            name: self.name.clone(),
            program: self.program.clone(),
            args: duplicate_strings(&self.args),
        }
    }
}

impl Manifest {
    /// Number of services in the manifest.
    pub fn len(&self) -> (out: usize)
        ensures
            out == self@.len(),
    {
        self.services.len()
    }
}

} // verus!
