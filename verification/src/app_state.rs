//! The session: whether a master password is unlocked, and which.

use vstd::prelude::*;
use crate::file_system::FileSystem;

verus! {

/// The two states a session can be in.
pub enum SessionState {
    /// No master password is unlocked.
    Unauthenticated,
    /// A master password was saved or verified and is held in memory.
    Authenticated { master_password: Seq<char> },
}

/// What a running vault holds in memory.
#[derive(Debug)]
pub struct ProductionState {
    master_password: Option<String>,
    authenticated: bool,
    fs: FileSystem,
}

impl ProductionState {
    /// The password held, if any.
    pub closed spec fn password_view(self) -> Option<Seq<char>> {
        match self.master_password {
            Some(password) => Some(password@),
            None => None,
        }
    }

    /// The authenticated flag.
    pub closed spec fn authenticated_view(self) -> bool {
        self.authenticated
    }

    /// The file layout.
    pub closed spec fn fs_view(self) -> FileSystem {
        self.fs
    }
}

/// The session of one process.
#[derive(Debug)]
pub enum AppState {
    Production(ProductionState),
}

impl AppState {
    /// The password held, if any.
    pub open spec fn password_view(self) -> Option<Seq<char>> {
        match self {
            AppState::Production(state) => state.password_view(),
        }
    }

    /// The authenticated flag.
    pub open spec fn authenticated_view(self) -> bool {
        match self {
            AppState::Production(state) => state.authenticated_view(),
        }
    }

    /// The file layout.
    pub open spec fn fs_view(self) -> FileSystem {
        match self {
            AppState::Production(state) => state.fs_view(),
        }
    }

    /// The session state: authenticated where the flag is set and a
    /// password is held.
    pub open spec fn session(self) -> SessionState {
        match self.password_view() {
            Some(master_password) if self.authenticated_view() => SessionState::Authenticated {
                master_password,
            },
            _ => SessionState::Unauthenticated,
        }
    }

    /// A fresh, unauthenticated session over a file layout.
    pub fn new(fs: FileSystem) -> (state: Self)
        ensures
            state.password_view() is None,
            !state.authenticated_view(),
            state.fs_view() == fs,
            state.session() == SessionState::Unauthenticated,
    {
        AppState::Production(ProductionState { master_password: None, authenticated: false, fs })
    }

    /// The password held, if any.
    pub fn master_password(&self) -> (password: Option<String>)
        ensures
            match password {
                Some(text) => self.password_view() == Some(text@),
                None => self.password_view() is None,
            },
    {
        match self {
            AppState::Production(state) => match &state.master_password {
                Some(password) => Some(password.clone()),
                None => None,
            },
        }
    }

    /// Holds `password` from now on.
    pub fn set_master_password(&mut self, password: String)
        ensures
            final(self).password_view() == Some(password@),
            final(self).authenticated_view() == old(self).authenticated_view(),
            final(self).fs_view() == old(self).fs_view(),
    {
        match self {
            AppState::Production(state) => state.master_password = Some(password),
        }
    }

    /// Forgets the password.
    pub fn unset_master_password(&mut self)
        ensures
            final(self).password_view() is None,
            final(self).authenticated_view() == old(self).authenticated_view(),
            final(self).fs_view() == old(self).fs_view(),
    {
        match self {
            AppState::Production(state) => state.master_password = None,
        }
    }

    /// The authenticated flag.
    pub fn is_authenticated(&self) -> (authenticated: bool)
        ensures
            authenticated == self.authenticated_view(),
    {
        match self {
            AppState::Production(state) => state.authenticated,
        }
    }

    /// Sets the authenticated flag.
    pub fn set_authenticated(&mut self, authenticated: bool)
        ensures
            final(self).authenticated_view() == authenticated,
            final(self).password_view() == old(self).password_view(),
            final(self).fs_view() == old(self).fs_view(),
    {
        match self {
            AppState::Production(state) => state.authenticated = authenticated,
        }
    }

    /// The file layout.
    pub fn file_system(&self) -> (fs: &FileSystem)
        ensures
            *fs == self.fs_view(),
    {
        match self {
            AppState::Production(state) => &state.fs,
        }
    }

    /// Unauthenticated to authenticated: holds `password` and sets the flag.
    pub fn log_in(&mut self, password: String)
        ensures
            final(self).session() == (SessionState::Authenticated { master_password: password@ }),
            final(self).fs_view() == old(self).fs_view(),
    {
        self.set_master_password(password);
        self.set_authenticated(true);
    }

    /// Authenticated to unauthenticated: clears the flag and forgets the
    /// password.
    pub fn log_out(&mut self)
        ensures
            final(self).session() == SessionState::Unauthenticated,
            final(self).password_view() is None,
            !final(self).authenticated_view(),
            final(self).fs_view() == old(self).fs_view(),
    {
        self.set_authenticated(false);
        self.unset_master_password();
    }
}

} // verus!
