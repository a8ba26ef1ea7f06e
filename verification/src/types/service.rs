use vstd::prelude::*;

verus! {

/// A part of the application that is set up once, at start. Each service
/// has a name, which is reported when its setup fails.
pub trait AppService {
    spec fn service_name() -> &'static str;

    fn name() -> (name: &'static str)
        ensures
            name == Self::service_name(),
    ;
}

} // verus!
