use vstd::prelude::*;

use crate::clock::{at_or_after, now, Timestamp};
use crate::error::{is_not_found, CswitchError};
use crate::keyed::{
    keyed_map, lemma_keyed_map_at, lemma_keyed_map_push, lemma_keyed_map_remove,
    lemma_keyed_map_update, position_of_key, unique_keys, Keyed,
};

verus! {

/// How a profile authenticates: with an API key or with an OAuth token.
#[derive(Debug, Clone, Copy, PartialEq, Eq, Structural)]
pub enum ProfileType {
    ApiKey,
    OAuth,
}

impl ProfileType {
    /// The name of the kind as it is shown and stored.
    pub fn as_str(&self) -> (r: &'static str)
        ensures
            r@ == profile_type_name(*self),
    {
        match self {
            ProfileType::ApiKey => "api-key",
            ProfileType::OAuth => "oauth",
        }
    }
}

/// The stored and displayed name of each kind.
pub open spec fn profile_type_name(t: ProfileType) -> Seq<char> {
    match t {
        ProfileType::ApiKey => "api-key"@,
        ProfileType::OAuth => "oauth"@,
    }
}

/// A named set of credentials. The secret itself is kept in the secret store.
#[derive(Debug, Clone)]
pub struct Profile {
    pub name: String,
    pub profile_type: ProfileType,
    pub label: Option<String>,
    pub created_at: Timestamp,
    pub last_used: Option<Timestamp>,
}

/// The mathematical value of a [`Profile`].
pub struct ProfileView {
    pub name: Seq<char>,
    pub profile_type: ProfileType,
    pub label: Option<Seq<char>>,
    pub created_at: Timestamp,
    pub last_used: Option<Timestamp>,
}

/// The characters of an optional string.
pub open spec fn opt_view(o: Option<String>) -> Option<Seq<char>> {
    match o {
        Some(s) => Some(s@),
        None => None,
    }
}

impl View for Profile {
    type V = ProfileView;

    open spec fn view(&self) -> ProfileView {
        ProfileView {
            name: self.name@,
            profile_type: self.profile_type,
            label: opt_view(self.label),
            created_at: self.created_at,
            last_used: self.last_used,
        }
    }
}

/// `p` as it is after being made active at `t`.
pub open spec fn stamped(p: ProfileView, t: Timestamp) -> ProfileView {
    ProfileView { last_used: Some(t), ..p }
}

/// The label a user typed, with an empty answer meaning no label.
pub open spec fn label_of_input(s: Seq<char>) -> Option<Seq<char>> {
    if s.len() == 0 {
        None
    } else {
        Some(s)
    }
}

impl Profile {
    /// A profile that has never been active, created at `created_at`. An empty
    /// `label` means that the profile has none.
    pub fn new(name: String, profile_type: ProfileType, label: String, created_at: Timestamp) -> (r:
        Profile)
        ensures
            r@ == (ProfileView {
                name: name@,
                profile_type,
                label: label_of_input(label@),
                created_at,
                last_used: None,
            }),
    {
        let label = if label.as_str().is_empty() {
            None
        } else {
            Some(label)
        };
        Profile { name, profile_type, label, created_at, last_used: None }
    }
}

impl Keyed for Profile {
    type Mapped = ProfileView;

    open spec fn key_of(&self) -> Seq<char> {
        self.name@
    }

    open spec fn value_of(&self) -> ProfileView {
        self@
    }

    fn key(&self) -> (r: &String) {
        &self.name
    }
}

/// No two profiles of `s` share a name.
pub open spec fn unique_names(s: Seq<Profile>) -> bool {
    unique_keys(s)
}

/// The profiles of `s`, by name.
pub open spec fn profile_map(s: Seq<Profile>) -> Map<Seq<char>, ProfileView> {
    keyed_map(s)
}

/// The registry `v` after `p` is added under its name.
pub open spec fn after_add(v: ProfileStoreView, p: ProfileView) -> ProfileStoreView {
    ProfileStoreView { active: v.active, profiles: v.profiles.insert(p.name, p) }
}

/// The registry `v` after the profile called `name` is removed.
pub open spec fn after_remove(v: ProfileStoreView, name: Seq<char>) -> ProfileStoreView {
    ProfileStoreView {
        active: if v.active == Some(name) {
            None
        } else {
            v.active
        },
        profiles: v.profiles.remove(name),
    }
}

/// The registry `v` after the profile called `name` is made active at `t`.
pub open spec fn after_set_active(v: ProfileStoreView, name: Seq<char>, t: Timestamp) -> ProfileStoreView {
    ProfileStoreView {
        active: Some(name),
        profiles: v.profiles.insert(name, stamped(v.profiles[name], t)),
    }
}

/// Adding a profile under a name that is free makes a lookup of that name
/// yield a profile with that name and kind; adding a second profile under
/// that name is refused, as the name is now taken.
pub proof fn law_add_then_get(v: ProfileStoreView, p: ProfileView, second: ProfileView)
    requires
        !v.profiles.contains_key(p.name),
        second.name == p.name,
    ensures
        after_add(v, p).profiles.contains_key(p.name),
        after_add(v, p).profiles[p.name].name == p.name,
        after_add(v, p).profiles[p.name].profile_type == p.profile_type,
        after_add(v, p).profiles[p.name] == p,
        after_add(v, p).profiles.contains_key(second.name),
{
}

/// After the profile called `name` is removed, a lookup of `name` finds
/// nothing; where it was the active one, no profile is active any more.
pub proof fn law_remove_then_get(v: ProfileStoreView, name: Seq<char>)
    ensures
        !after_remove(v, name).profiles.contains_key(name),
        v.active == Some(name) ==> after_remove(v, name).active is None,
{
}

/// Making a registered profile active at `t`, then asking for the active
/// profile, yields that profile, last used at `t`. So where `t` is a clock
/// reading taken at or after an `earlier` one (the clock itself promises no
/// order between two readings), the recorded time is at or after `earlier`.
pub proof fn law_set_active_then_get_active(
    v: ProfileStoreView,
    name: Seq<char>,
    t: Timestamp,
    earlier: Timestamp,
)
    requires
        v.profiles.contains_key(name),
        at_or_after(t, earlier),
    ensures
        after_set_active(v, name, t).active == Some(name),
        after_set_active(v, name, t).profiles.contains_key(name),
        after_set_active(v, name, t).profiles[name].name == v.profiles[name].name,
        after_set_active(v, name, t).profiles[name].last_used == Some(t),
        at_or_after(after_set_active(v, name, t).profiles[name].last_used->Some_0, earlier),
{
}

/// The profiles of stored entries, in order.
pub open spec fn profiles_of(s: Seq<(String, Profile)>) -> Seq<Profile> {
    s.map_values(|e: (String, Profile)| e.1)
}

/// Each entry is stored under its profile's own name, and no name twice.
pub open spec fn entries_consistent(s: Seq<(String, Profile)>) -> bool {
    &&& forall|i: int| 0 <= i < s.len() ==> (#[trigger] s[i]).0@ == s[i].1.name@
    &&& unique_names(profiles_of(s))
}

/// The registry of profiles, with the name of the active one.
pub struct ProfileStore {
    active: Option<String>,
    profiles: Vec<Profile>,
}

/// The mathematical value of a [`ProfileStore`].
pub struct ProfileStoreView {
    pub active: Option<Seq<char>>,
    pub profiles: Map<Seq<char>, ProfileView>,
}

impl View for ProfileStore {
    type V = ProfileStoreView;

    closed spec fn view(&self) -> ProfileStoreView {
        ProfileStoreView { active: opt_view(self.active), profiles: profile_map(self.profiles@) }
    }
}

impl ProfileStore {
    #[verifier::type_invariant]
    spec fn names_unique(&self) -> bool {
        unique_names(self.profiles@)
    }

    /// An empty registry with no active profile.
    pub fn new() -> (r: ProfileStore)
        ensures
            r@.active is None,
            r@.profiles == Map::<Seq<char>, ProfileView>::empty(),
    {
        let r = ProfileStore { active: None, profiles: Vec::new() };
        assert(r@.profiles =~= Map::<Seq<char>, ProfileView>::empty());
        r
    }

    /// Registers `profile`. Fails, changing nothing, where its name is taken.
    pub fn add_profile(&mut self, profile: Profile) -> (r: Result<(), CswitchError>)
        ensures
            old(self)@.profiles.contains_key(profile.name@) ==> r == Err::<(), CswitchError>(
                CswitchError::ProfileAlreadyExists(profile.name),
            ) && final(self)@ == old(self)@,
            !old(self)@.profiles.contains_key(profile.name@) ==> r is Ok && final(self)@
                == after_add(old(self)@, profile@),
    {
        proof {
            use_type_invariant(&*self);
        }
        if self.find(profile.name.as_str()).is_some() {
            return Err(CswitchError::ProfileAlreadyExists(profile.name));
        }
        proof {
            lemma_keyed_map_push(self.profiles@, profile);
        }
        let mut profiles = Vec::new();
        std::mem::swap(&mut profiles, &mut self.profiles);
        profiles.push(profile);
        self.profiles = profiles;
        Ok(())
    }

    /// Whether a profile called `name` is registered.
    pub fn has_profile(&self, name: &str) -> (r: bool)
        ensures
            r == self@.profiles.contains_key(name@),
    {
        proof {
            use_type_invariant(self);
        }
        match self.find(name) {
            Some(i) => {
                proof {
                    lemma_keyed_map_at(self.profiles@, i as int);
                }
                true
            },
            None => false,
        }
    }

    /// The profile called `name`.
    pub fn get_profile(&self, name: &str) -> (r: Result<&Profile, CswitchError>)
        ensures
            !self@.profiles.contains_key(name@) ==> r is Err && is_not_found(r->Err_0, name@),
            self@.profiles.contains_key(name@) ==> r is Ok && r->Ok_0@ == self@.profiles[name@]
                && r->Ok_0.name@ == name@,
    {
        proof {
            use_type_invariant(self);
        }
        match self.find(name) {
            Some(i) => {
                proof {
                    lemma_keyed_map_at(self.profiles@, i as int);
                }
                Ok(&self.profiles[i])
            },
            None => Err(CswitchError::ProfileNotFound(String::from_str(name))),
        }
    }

    /// The active profile. Fails where none is active, or where the active
    /// name refers to no registered profile.
    pub fn get_active(&self) -> (r: Result<&Profile, CswitchError>)
        ensures
            self@.active is None ==> r == Err::<&Profile, CswitchError>(
                CswitchError::NoActiveProfile,
            ),
            self@.active is Some && !self@.profiles.contains_key(self@.active->Some_0) ==> r is Err
                && is_not_found(r->Err_0, self@.active->Some_0),
            self@.active is Some && self@.profiles.contains_key(self@.active->Some_0) ==> r is Ok
                && r->Ok_0@ == self@.profiles[self@.active->Some_0] && r->Ok_0.name@
                == self@.active->Some_0,
    {
        match &self.active {
            None => Err(CswitchError::NoActiveProfile),
            Some(a) => self.get_profile(a.as_str()),
        }
    }

    /// Removes the profile called `name` and hands it back; clears the active
    /// name where it was that profile. Fails, changing nothing, where no such
    /// profile is registered.
    pub fn remove_profile(&mut self, name: &str) -> (r: Result<Profile, CswitchError>)
        ensures
            !old(self)@.profiles.contains_key(name@) ==> r is Err && is_not_found(r->Err_0, name@)
                && final(self)@ == old(self)@,
            old(self)@.profiles.contains_key(name@) ==> r is Ok && r->Ok_0@ == old(
                self,
            )@.profiles[name@] && final(self)@ == after_remove(old(self)@, name@),
    {
        proof {
            use_type_invariant(&*self);
        }
        let i = match self.find(name) {
            Some(i) => i,
            None => {
                return Err(CswitchError::ProfileNotFound(String::from_str(name)));
            },
        };
        proof {
            lemma_keyed_map_at(self.profiles@, i as int);
            lemma_keyed_map_remove(self.profiles@, i as int);
        }
        let mut profiles = Vec::new();
        std::mem::swap(&mut profiles, &mut self.profiles);
        let removed = profiles.remove(i);
        self.profiles = profiles;
        let key = String::from_str(name);
        let was_active = match &self.active {
            Some(a) => *a == key,
            None => false,
        };
        if was_active {
            self.active = None;
        }
        Ok(removed)
    }

    /// Makes the profile called `name` the active one and records `now` as the
    /// time it was last used. Fails, changing nothing, where no such profile is
    /// registered.
    pub fn set_active_at(&mut self, name: &str, now: Timestamp) -> (r: Result<(), CswitchError>)
        ensures
            !old(self)@.profiles.contains_key(name@) ==> r is Err && is_not_found(r->Err_0, name@)
                && final(self)@ == old(self)@,
            old(self)@.profiles.contains_key(name@) ==> r is Ok && final(self)@
                == after_set_active(old(self)@, name@, now),
    {
        proof {
            use_type_invariant(&*self);
        }
        let i = match self.find(name) {
            Some(i) => i,
            None => {
                return Err(CswitchError::ProfileNotFound(String::from_str(name)));
            },
        };
        let ghost s = self.profiles@;
        let mut profiles = Vec::new();
        std::mem::swap(&mut profiles, &mut self.profiles);
        let mut p = profiles.remove(i);
        p.last_used = Some(now);
        profiles.insert(i, p);
        proof {
            assert(profiles@ =~= s.update(i as int, p));
            lemma_keyed_map_at(s, i as int);
            lemma_keyed_map_update(s, i as int, p);
        }
        self.profiles = profiles;
        self.active = Some(String::from_str(name));
        Ok(())
    }

    /// Makes the profile called `name` the active one, stamped with the
    /// current time. Fails, changing nothing, where no such profile is
    /// registered.
    pub fn set_active(&mut self, name: &str) -> (r: Result<(), CswitchError>)
        ensures
            !old(self)@.profiles.contains_key(name@) ==> r is Err && is_not_found(r->Err_0, name@)
                && final(self)@ == old(self)@,
            old(self)@.profiles.contains_key(name@) ==> r is Ok && final(self)@.profiles[name@].last_used is Some
                && final(self)@ == after_set_active(
                old(self)@,
                name@,
                final(self)@.profiles[name@].last_used->Some_0,
            ),
    {
        let t = now();
        self.set_active_at(name, t)
    }

    /// The index of the profile called `name`.
    fn find(&self, name: &str) -> (r: Option<usize>)
        ensures
            match r {
                Some(i) => i < self.profiles@.len() && self.profiles@[i as int].name@ == name@,
                None => !self@.profiles.contains_key(name@),
            },
    {
        position_of_key(&self.profiles, name)
    }

    /// The name of the active profile, if any.
    pub fn active(&self) -> (r: &Option<String>)
        ensures
            opt_view(*r) == self@.active,
    {
        &self.active
    }

    /// The registered profiles, each name once.
    pub fn profiles(&self) -> (r: &Vec<Profile>)
        ensures
            unique_names(r@),
            profile_map(r@) == self@.profiles,
    {
        proof {
            use_type_invariant(self);
        }
        &self.profiles
    }

    /// A registry read back from storage: `entries` pairs each profile with
    /// the name it was stored under. Fails where a stored name differs from
    /// its profile's own name, or where two entries share a name.
    pub fn from_entries(active: Option<String>, entries: Vec<(String, Profile)>) -> (r: Result<
        ProfileStore,
        CswitchError,
    >)
        ensures
            r is Ok <==> entries_consistent(entries@),
            r is Ok ==> r->Ok_0@ == (ProfileStoreView {
                active: opt_view(active),
                profiles: profile_map(profiles_of(entries@)),
            }),
            r is Err ==> r->Err_0 is Config,
    {
        let ghost orig = entries@;
        let mut rest = entries;
        let mut profiles: Vec<Profile> = Vec::new();
        let n = rest.len();
        let mut k: usize = 0;
        while rest.len() > 0
            invariant
                orig == entries@,
                n == orig.len(),
                k <= orig.len(),
                rest@ == orig.subrange(k as int, orig.len() as int),
                profiles@ == profiles_of(orig.subrange(0, k as int)),
                unique_names(profiles@),
                forall|i: int| 0 <= i < k ==> (#[trigger] orig[i]).0@ == orig[i].1.name@,
            decreases rest.len(),
        {
            proof {
                assert(rest@.len() == orig.len() - k);
                assert(k < orig.len());
                assert(rest@[0] == orig[k as int]);
            }
            let (key, p) = rest.remove(0);
            if !(key == p.name) {
                proof {
                    assert(orig[k as int].0@ != orig[k as int].1.name@);
                    assert(!entries_consistent(orig));
                }
                return Err(CswitchError::Config(String::from_str("stored profile name does not match its entry")));
            }
            match position_of_key(&profiles, p.name.as_str()) {
                Some(j) => {
                    proof {
                        assert(profiles_of(orig)[j as int] == profiles@[j as int]);
                        assert(profiles_of(orig)[k as int] == p);
                        assert(j < k);
                        assert(profiles_of(orig)[j as int].name@ == profiles_of(orig)[k as int].name@);
                        assert(!unique_names(profiles_of(orig)));
                    }
                    return Err(CswitchError::Config(String::from_str("profile name stored twice")));
                },
                None => {},
            }
            proof {
                lemma_keyed_map_push(profiles@, p);
                assert(profiles_of(orig.subrange(0, k + 1)) =~= profiles_of(orig.subrange(0, k as int)).push(p));
            }
            profiles.push(p);
            k = k + 1;
        }
        proof {
            assert(orig.subrange(0, k as int) =~= orig);
        }
        Ok(ProfileStore { active, profiles })
    }
}

} // verus!
