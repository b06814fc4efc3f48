//! The containers that hold the services and repositories a server uses.

use std::marker::PhantomData;
use vstd::prelude::*;

verus! {

/// The services and repositories of a server.
pub struct Context<SC, RC> {
    service_context: SC,
    repository_context: RC,
}

impl<SC, RC> Context<SC, RC> {
    pub closed spec fn services(&self) -> SC {
        self.service_context
    }

    pub closed spec fn repositories(&self) -> RC {
        self.repository_context
    }

    pub fn new(service_context: SC, repository_context: RC) -> (context: Self)
        ensures
            context.services() == service_context,
            context.repositories() == repository_context,
    {
        Context { service_context, repository_context }
    }

    pub fn service_context(&self) -> (service_context: &SC)
        ensures
            *service_context == self.services(),
    {
        &self.service_context
    }

    pub fn repository_context(&self) -> (repository_context: &RC)
        ensures
            *repository_context == self.repositories(),
    {
        &self.repository_context
    }
}

/// The user, profile and figure services.
pub struct ServiceContext<US, PS, FS> {
    user_service: US,
    profile_service: PS,
    figure_service: FS,
}

impl<US, PS, FS> ServiceContext<US, PS, FS> {
    pub closed spec fn users(&self) -> US {
        self.user_service
    }

    pub closed spec fn profiles(&self) -> PS {
        self.profile_service
    }

    pub closed spec fn figures(&self) -> FS {
        self.figure_service
    }

    pub fn new(user_service: US, profile_service: PS, figure_service: FS) -> (context: ServiceContext<US, PS, FS>)
        ensures
            context.users() == user_service,
            context.profiles() == profile_service,
            context.figures() == figure_service,
    {
        ServiceContext { user_service, profile_service, figure_service }
    }

    pub fn user_service(&self) -> (user_service: &US)
        ensures
            *user_service == self.users(),
    {
        &self.user_service
    }

    pub fn profile_service(&self) -> (profile_service: &PS)
        ensures
            *profile_service == self.profiles(),
    {
        &self.profile_service
    }

    pub fn figure_service(&self) -> (figure_service: &FS)
        ensures
            *figure_service == self.figures(),
    {
        &self.figure_service
    }
}

/// The repositories and the transaction starter, all working with transactions
/// of type `T`.
pub struct RepositoryContext<T, UR, PR, FR, SR, TS> {
    marker: PhantomData<T>,
    user_repository: UR,
    profile_repository: PR,
    figure_repository: FR,
    session_repository: SR,
    transaction_starter: TS,
}

impl<T, UR, PR, FR, SR, TS> RepositoryContext<T, UR, PR, FR, SR, TS> {
    pub closed spec fn users(&self) -> UR {
        self.user_repository
    }

    pub closed spec fn profiles(&self) -> PR {
        self.profile_repository
    }

    pub closed spec fn figures(&self) -> FR {
        self.figure_repository
    }

    pub closed spec fn sessions(&self) -> SR {
        self.session_repository
    }

    pub closed spec fn transactions(&self) -> TS {
        self.transaction_starter
    }

    pub fn new(
        user_repository: UR,
        profile_repository: PR,
        figure_repository: FR,
        session_repository: SR,
        transaction_starter: TS,
    ) -> (context: RepositoryContext<T, UR, PR, FR, SR, TS>)
        ensures
            context.users() == user_repository,
            context.profiles() == profile_repository,
            context.figures() == figure_repository,
            context.sessions() == session_repository,
            context.transactions() == transaction_starter,
    {
        RepositoryContext {
            marker: PhantomData,
            user_repository,
            profile_repository,
            figure_repository,
            session_repository,
            transaction_starter,
        }
    }

    pub fn user_repository(&self) -> (user_repository: &UR)
        ensures
            *user_repository == self.users(),
    {
        &self.user_repository
    }

    pub fn profile_repository(&self) -> (profile_repository: &PR)
        ensures
            *profile_repository == self.profiles(),
    {
        &self.profile_repository
    }

    pub fn figure_repository(&self) -> (figure_repository: &FR)
        ensures
            *figure_repository == self.figures(),
    {
        &self.figure_repository
    }

    pub fn session_repository(&self) -> (session_repository: &SR)
        ensures
            *session_repository == self.sessions(),
    {
        &self.session_repository
    }

    pub fn transaction_starter(&self) -> (transaction_starter: &TS)
        ensures
            *transaction_starter == self.transactions(),
    {
        &self.transaction_starter
    }
}

/// The profile service: a profile repository working with transactions of type
/// `T`, and the store profile images are uploaded to.
pub struct ProfileService<T, P, S> {
    profile_repository: P,
    storage: S,
    marker: PhantomData<T>,
}

impl<T, P, S> ProfileService<T, P, S> {
    pub closed spec fn repository(&self) -> P {
        self.profile_repository
    }

    pub closed spec fn store(&self) -> S {
        self.storage
    }

    pub fn new(profile_repository: P, storage: S) -> (service: Self)
        ensures
            service.repository() == profile_repository,
            service.store() == storage,
    {
        ProfileService { profile_repository, storage, marker: PhantomData }
    }

    pub fn profile_repository(&self) -> (profile_repository: &P)
        ensures
            *profile_repository == self.repository(),
    {
        &self.profile_repository
    }

    pub fn storage(&self) -> (storage: &S)
        ensures
            *storage == self.store(),
    {
        &self.storage
    }
}

} // verus!
