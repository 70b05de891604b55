//! The access-control registry: it keeps a profile per user and decides
//! role promotions. The marketplace only reads it.
use vstd::prelude::*;
use std::collections::HashMap;
use crate::types::{Address, Profile, RegistryError, ROLE_ADMIN, ROLE_ARTISAN, ROLE_CURATOR, ROLE_FINDER};
use crate::env::Env;
use crate::events::{ApplicationReceived, CuratorRemoved, Event, ProfileUpdated, UserVerified};

verus! {

broadcast use vstd::std_specs::hash::group_hash_axioms;

/// The registry contract's state.
pub struct Registry {
    address: Address,
    admin: Option<Address>,
    profiles: HashMap<u64, Profile>,
}

impl Registry {
    /// The address at which this registry is deployed.
    pub closed spec fn spec_address(self) -> Address {
        self.address
    }

    /// The administrator, once initialized.
    pub closed spec fn spec_admin(self) -> Option<Address> {
        self.admin
    }

    /// Every profile, keyed by the user's address.
    pub closed spec fn profiles(self) -> Map<u64, Profile> {
        self.profiles@
    }

    /// The profile of `user`, if registered.
    pub open spec fn profile_of(self, user: Address) -> Option<Profile> {
        if self.profiles().contains_key(user.0) {
            Some(self.profiles()[user.0])
        } else {
            None
        }
    }

    /// A registry deployed at `address`, without admin or profiles.
    pub fn new(address: Address) -> (r: Registry)
        ensures
            r.spec_address() == address,
            r.spec_admin() is None,
            r.profiles() == Map::<u64, Profile>::empty(),
    {
        Registry { address, admin: None, profiles: HashMap::new() }
    }

    pub fn address(&self) -> (r: Address)
        ensures
            r == self.spec_address(),
    {
        self.address
    }

    /// The profile of `user`.
    pub fn read_profile(&self, user: Address) -> (r: Option<Profile>)
        ensures
            r == self.profile_of(user),
    {
        match self.profiles.get(&user.0) {
            Some(p) => Some(p.copy()),
            None => None,
        }
    }

    /// Stores `profile` as the profile of `user`, replacing any earlier one.
    pub fn write_profile(&mut self, user: Address, profile: Profile)
        ensures
            final(self).profiles() == old(self).profiles().insert(user.0, profile),
            final(self).spec_admin() == old(self).spec_admin(),
            final(self).spec_address() == old(self).spec_address(),
    {
        self.profiles.insert(user.0, profile);
    }

    /// Designates the administrator, once.
    pub fn initialize(&mut self, admin: Address) -> (r: Result<(), RegistryError>)
        ensures
            r == (if old(self).spec_admin() is Some {
                Err(RegistryError::AlreadyInitialized)
            } else {
                Ok(())
            }),
            r is Ok ==> final(self).spec_admin() == Some(admin),
            r is Err ==> final(self).spec_admin() == old(self).spec_admin(),
            final(self).profiles() == old(self).profiles(),
            final(self).spec_address() == old(self).spec_address(),
    {
        if self.admin.is_some() {
            return Err(RegistryError::AlreadyInitialized);
        }
        self.admin = Some(admin);
        Ok(())
    }

    /// The administrator.
    pub fn get_admin(&self) -> (r: Result<Address, RegistryError>)
        ensures
            r == (match self.spec_admin() {
                Some(a) => Ok(a),
                None => Err(RegistryError::NotInitialized),
            }),
    {
        match self.admin {
            Some(a) => Ok(a),
            None => Err(RegistryError::NotInitialized),
        }
    }

    /// The profile of `user`; `NotFound` for an unknown user.
    pub fn get_profile(&self, user: Address) -> (r: Result<Profile, RegistryError>)
        ensures
            r == (match self.profile_of(user) {
                Some(p) => Ok(p),
                None => Err(RegistryError::NotFound),
            }),
    {
        match self.read_profile(user) {
            Some(p) => Ok(p),
            None => Err(RegistryError::NotFound),
        }
    }

    /// Replaces the metadata hash of the authenticated `user`'s own profile.
    pub fn update_profile_metadata(
        &mut self,
        env: &mut Env,
        user: Address,
        new_metadata_hash: String,
    ) -> (r: Result<(), RegistryError>)
        ensures
            r == (if !old(env).authorizes(user) {
                Err(RegistryError::Unauthorized)
            } else if old(self).profile_of(user) is None {
                Err(RegistryError::NotFound)
            } else {
                Ok(())
            }),
            r is Ok ==> final(self).profiles() == old(self).profiles().insert(
                user.0,
                Profile { metadata_hash: new_metadata_hash, ..old(self).profiles()[user.0] },
            ),
            r is Ok ==> final(env).is_publish_of(
                *old(env),
                old(self).spec_address(),
                Event::ProfileUpdated(ProfileUpdated { user, metadata_hash: new_metadata_hash }),
            ),
            r is Err ==> *final(self) == *old(self) && *final(env) == *old(env),
            final(self).spec_admin() == old(self).spec_admin(),
            final(self).spec_address() == old(self).spec_address(),
    {
        if !env.require_auth(user) {
            return Err(RegistryError::Unauthorized);
        }
        let mut profile = match self.read_profile(user) {
            Some(p) => p,
            None => return Err(RegistryError::NotFound),
        };
        profile.metadata_hash = new_metadata_hash.clone();
        self.write_profile(user, profile);
        env.publish(
            self.address,
            Event::ProfileUpdated(ProfileUpdated { user, metadata_hash: new_metadata_hash }),
        );
        Ok(())
    }

    /// Promotes `curator` to the curator role; the admin must authenticate.
    pub fn add_curator(&mut self, env: &Env, curator: Address) -> (r: Result<(), RegistryError>)
        ensures
            r == (match old(self).spec_admin() {
                None => Err(RegistryError::NotInitialized),
                Some(a) => if !env.authorizes(a) {
                    Err(RegistryError::Unauthorized)
                } else {
                    match old(self).profile_of(curator) {
                        None => Err(RegistryError::NotFound),
                        Some(p) => if p.role == ROLE_CURATOR {
                            Err(RegistryError::AlreadyCurator)
                        } else {
                            Ok(())
                        },
                    }
                },
            }),
            r is Ok ==> final(self).profiles() == old(self).profiles().insert(
                curator.0,
                Profile { role: ROLE_CURATOR, ..old(self).profiles()[curator.0] },
            ),
            r is Err ==> *final(self) == *old(self),
            final(self).spec_admin() == old(self).spec_admin(),
            final(self).spec_address() == old(self).spec_address(),
    {
        let admin = match self.admin {
            Some(a) => a,
            None => return Err(RegistryError::NotInitialized),
        };
        if !env.require_auth(admin) {
            return Err(RegistryError::Unauthorized);
        }
        let mut profile = match self.read_profile(curator) {
            Some(p) => p,
            None => return Err(RegistryError::NotFound),
        };
        if profile.role == ROLE_CURATOR {
            return Err(RegistryError::AlreadyCurator);
        }
        profile.role = ROLE_CURATOR;
        self.write_profile(curator, profile);
        Ok(())
    }

    /// Demotes `curator` back to finder; the admin must authenticate.
    pub fn remove_curator(&mut self, env: &mut Env, curator: Address) -> (r: Result<(), RegistryError>)
        ensures
            r == (match old(self).spec_admin() {
                None => Err(RegistryError::NotInitialized),
                Some(a) => if !old(env).authorizes(a) {
                    Err(RegistryError::Unauthorized)
                } else {
                    match old(self).profile_of(curator) {
                        None => Err(RegistryError::NotFound),
                        Some(p) => if p.role != ROLE_CURATOR {
                            Err(RegistryError::NotCurator)
                        } else {
                            Ok(())
                        },
                    }
                },
            }),
            r is Ok ==> final(self).profiles() == old(self).profiles().insert(
                curator.0,
                Profile { role: ROLE_FINDER, ..old(self).profiles()[curator.0] },
            ),
            r is Ok ==> final(env).is_publish_of(
                *old(env),
                old(self).spec_address(),
                Event::CuratorRemoved(CuratorRemoved { curator }),
            ),
            r is Err ==> *final(self) == *old(self) && *final(env) == *old(env),
            final(self).spec_admin() == old(self).spec_admin(),
            final(self).spec_address() == old(self).spec_address(),
    {
        let admin = match self.admin {
            Some(a) => a,
            None => return Err(RegistryError::NotInitialized),
        };
        if !env.require_auth(admin) {
            return Err(RegistryError::Unauthorized);
        }
        let mut profile = match self.read_profile(curator) {
            Some(p) => p,
            None => return Err(RegistryError::NotFound),
        };
        if profile.role != ROLE_CURATOR {
            return Err(RegistryError::NotCurator);
        }
        profile.role = ROLE_FINDER;
        self.write_profile(curator, profile);
        env.publish(self.address, Event::CuratorRemoved(CuratorRemoved { curator }));
        Ok(())
    }

    /// Signals that the authenticated `caller` is ready for review; the
    /// profile must carry a metadata hash.
    pub fn apply_for_verification(&self, env: &mut Env, caller: Address) -> (r: Result<(), RegistryError>)
        ensures
            r == (if !old(env).authorizes(caller) {
                Err(RegistryError::Unauthorized)
            } else {
                match self.profile_of(caller) {
                    None => Err(RegistryError::NotFound),
                    Some(p) => if p.metadata_hash@.len() == 0 {
                        Err(RegistryError::MissingMetadata)
                    } else {
                        Ok(())
                    },
                }
            }),
            r is Ok ==> final(env).is_publish_of(
                *old(env),
                self.spec_address(),
                Event::ApplicationReceived(ApplicationReceived { user_address: caller }),
            ),
            r is Err ==> *final(env) == *old(env),
    {
        if !env.require_auth(caller) {
            return Err(RegistryError::Unauthorized);
        }
        let profile = match self.read_profile(caller) {
            Some(p) => p,
            None => return Err(RegistryError::NotFound),
        };
        if profile.metadata_hash.as_str().is_empty() {
            return Err(RegistryError::MissingMetadata);
        }
        env.publish(
            self.address,
            Event::ApplicationReceived(ApplicationReceived { user_address: caller }),
        );
        Ok(())
    }

    /// Gives `artisan` the artisan role; the authenticated `caller` must be a
    /// curator or an admin.
    pub fn approve_artisan(&mut self, env: &mut Env, caller: Address, artisan: Address) -> (r: Result<(), RegistryError>)
        ensures
            r == (if !old(env).authorizes(caller) {
                Err(RegistryError::Unauthorized)
            } else {
                match old(self).profile_of(caller) {
                    None => Err(RegistryError::NotFound),
                    Some(c) => if c.role != ROLE_CURATOR && c.role != ROLE_ADMIN {
                        Err(RegistryError::NotCuratorOrAdmin)
                    } else if old(self).profile_of(artisan) is None {
                        Err(RegistryError::NotFound)
                    } else {
                        Ok(())
                    },
                }
            }),
            r is Ok ==> final(self).profiles() == old(self).profiles().insert(
                artisan.0,
                Profile { role: ROLE_ARTISAN, ..old(self).profiles()[artisan.0] },
            ),
            r is Ok ==> final(env).is_publish_of(
                *old(env),
                old(self).spec_address(),
                Event::UserVerified(UserVerified { artisan }),
            ),
            r is Err ==> *final(self) == *old(self) && *final(env) == *old(env),
            final(self).spec_admin() == old(self).spec_admin(),
            final(self).spec_address() == old(self).spec_address(),
    {
        if !env.require_auth(caller) {
            return Err(RegistryError::Unauthorized);
        }
        let caller_profile = match self.read_profile(caller) {
            Some(p) => p,
            None => return Err(RegistryError::NotFound),
        };
        if caller_profile.role != ROLE_CURATOR && caller_profile.role != ROLE_ADMIN {
            return Err(RegistryError::NotCuratorOrAdmin);
        }
        let mut artisan_profile = match self.read_profile(artisan) {
            Some(p) => p,
            None => return Err(RegistryError::NotFound),
        };
        artisan_profile.role = ROLE_ARTISAN;
        self.write_profile(artisan, artisan_profile);
        env.publish(self.address, Event::UserVerified(UserVerified { artisan }));
        Ok(())
    }
}

} // verus!
