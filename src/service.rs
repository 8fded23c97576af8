use vstd::prelude::*;

verus! {

/// The closed set of logical task services.
///
/// `Smart` is a pseudo-service: it has no plugin behind it, and its lists and
/// tasks are computed from what the other services have supplied.
#[derive(Clone, Copy, Debug, PartialEq, Eq, Structural, Hash)]
pub enum Service {
    Smart,
    Local,
    Microsoft,
    Google,
}

impl Service {
    /// Whether a plugin stands behind this service.
    pub open spec fn is_remote(self) -> bool {
        !(self is Smart)
    }

    pub fn is_smart(&self) -> (r: bool)
        ensures
            r == (*self is Smart),
    {
        matches!(self, Service::Smart)
    }
}

/// Whether a plugin is installed and enabled, and if so whether it streams its reads.
#[derive(Clone, Copy, Debug, PartialEq, Eq, Structural)]
pub enum Availability {
    Unavailable,
    Available { stream_support: bool },
}

/// Where the calls for a service go.
#[derive(Clone, Copy, Debug, PartialEq, Eq, Structural)]
pub enum Route {
    /// No remote calls: the service is computed locally.
    Smart,
    /// A plugin that answers either with a stream of records or with one batch.
    Plugin { service: Service, stream_support: bool },
}

#[derive(Clone, Copy, Debug, PartialEq, Eq, Structural)]
pub enum DispatchError {
    ServiceUnavailable(Service),
}

/// The routing table from services to plugins. It holds nothing but routing.
#[derive(Clone, Copy, Debug, PartialEq, Eq, Structural)]
pub struct Dispatcher {
    pub local: Availability,
    pub microsoft: Availability,
    pub google: Availability,
}

impl Dispatcher {
    /// The availability recorded for `s`; the smart service is never a plugin.
    pub open spec fn availability(self, s: Service) -> Availability {
        match s {
            Service::Smart => Availability::Unavailable,
            Service::Local => self.local,
            Service::Microsoft => self.microsoft,
            Service::Google => self.google,
        }
    }

    pub open spec fn spec_resolve(self, s: Service) -> Result<Route, DispatchError> {
        if s is Smart {
            Ok(Route::Smart)
        } else {
            match self.availability(s) {
                Availability::Unavailable => Err(DispatchError::ServiceUnavailable(s)),
                Availability::Available { stream_support } => Ok(
                    Route::Plugin { service: s, stream_support },
                ),
            }
        }
    }

    /// A table in which no plugin is available yet.
    pub fn new() -> (r: Dispatcher)
        ensures
            forall|s: Service| r.availability(s) == Availability::Unavailable,
    {
        Dispatcher {
            local: Availability::Unavailable,
            microsoft: Availability::Unavailable,
            google: Availability::Unavailable,
        }
    }

    /// Looks `s` up: the smart marker, a plugin route, or the unavailable error.
    pub fn resolve(&self, s: Service) -> (r: Result<Route, DispatchError>)
        ensures
            r == self.spec_resolve(s),
    {
        let a = match s {
            Service::Smart => {
                return Ok(Route::Smart);
            },
            Service::Local => self.local,
            Service::Microsoft => self.microsoft,
            Service::Google => self.google,
        };
        match a {
            Availability::Unavailable => Err(DispatchError::ServiceUnavailable(s)),
            Availability::Available { stream_support } => Ok(
                Route::Plugin { service: s, stream_support },
            ),
        }
    }

    pub open spec fn spec_with(self, s: Service, a: Availability) -> Dispatcher {
        match s {
            Service::Smart => self,
            Service::Local => Dispatcher { local: a, ..self },
            Service::Microsoft => Dispatcher { microsoft: a, ..self },
            Service::Google => Dispatcher { google: a, ..self },
        }
    }

    /// Records that `s` became available or unavailable; the smart service is
    /// not a plugin and is left alone.
    pub fn set_availability(&mut self, s: Service, a: Availability)
        ensures
            *final(self) == old(self).spec_with(s, a),
            s.is_remote() ==> final(self).availability(s) == a,
            forall|t: Service| t != s ==> final(self).availability(t) == old(self).availability(t),
    {
        match s {
            Service::Smart => {},
            Service::Local => self.local = a,
            Service::Microsoft => self.microsoft = a,
            Service::Google => self.google = a,
        }
    }
}

} // verus!
