//! The repository descriptor: which mods a repository tracks, whether each
//! is required or optional and enabled, and the digest recorded for it.
//! Loading and saving the descriptor is the outer layer's business; the
//! lookups and updates on it are verified here.

use vstd::prelude::*;
use crate::State;

verus! {

/// One tracked mod: its name, whether it is enabled, and the mod digest
/// recorded at the last push.
#[allow(non_snake_case)]
pub struct Mod {
    pub modName: String,
    pub Enabled: bool,
    pub checkSum: String,
}

/// One game server advertised by the repository.
#[allow(non_snake_case)]
pub struct Server {
    pub name: String,
    pub address: String,
    pub port: String,
    pub password: String,
    pub battleEye: bool,
}

/// The repository descriptor.
#[allow(non_snake_case)]
pub struct Repo {
    pub repoName: String,
    pub clientParameters: String,
    pub basePath: String,
    pub requiredMods: Vec<Mod>,
    pub optionalMods: Vec<Mod>,
    pub servers: Vec<Server>,
    pub version: String,
    pub imageChecksum: String,
}

/// Whether some mod in `mods` is named `name`.
pub open spec fn mods_contain(mods: Seq<Mod>, name: Seq<char>) -> bool {
    exists|i: int| 0 <= i < mods.len() && mods[i].modName@ == name
}

/// Whether `i` is the first position of `name` in `mods`.
pub open spec fn first_match(mods: Seq<Mod>, name: Seq<char>, i: int) -> bool {
    &&& 0 <= i < mods.len()
    &&& mods[i].modName@ == name
    &&& forall|j: int| 0 <= j < i ==> (#[trigger] mods[j].modName@) != name
}

/// The version written into descriptors that do not carry one.
pub fn default_version() -> (r: String)
    ensures
        r@ == "3.0.0.0"@,
{
    "3.0.0.0".to_owned()
}

impl Repo {
    /// Whether the repository tracks a mod named `name`, required or
    /// optional.
    pub fn has_mod(&self, name: &str) -> (r: bool)
        ensures
            r == (mods_contain(self.requiredMods@, name@) || mods_contain(
                self.optionalMods@,
                name@,
            )),
    {
        let name_owned: String = name.to_owned();
        let n = self.requiredMods.len();
        let mut i: usize = 0;
        while i < n
            invariant
                i <= n,
                n == self.requiredMods@.len(),
                name_owned@ == name@,
                forall|j: int|
                    0 <= j < i ==> (#[trigger] self.requiredMods@[j].modName@) != name@,
            decreases n - i,
        {
            if self.requiredMods[i].modName == name_owned {
                return true;
            }
            i = i + 1;
        }
        let m = self.optionalMods.len();
        let mut k: usize = 0;
        while k < m
            invariant
                k <= m,
                m == self.optionalMods@.len(),
                name_owned@ == name@,
                !mods_contain(self.requiredMods@, name@),
                forall|j: int|
                    0 <= j < k ==> (#[trigger] self.optionalMods@[j].modName@) != name@,
            decreases m - k,
        {
            if self.optionalMods[k].modName == name_owned {
                return true;
            }
            k = k + 1;
        }
        false
    }

    /// The state of the mod named `name`: its enablement from the first
    /// matching required entry, else from the first matching optional
    /// entry, else disabled.
    pub fn mod_state(&self, name: &str) -> (r: State)
        ensures
            forall|i: int|
                first_match(self.requiredMods@, name@, i) ==> r == (if self.requiredMods@[i].Enabled {
                    State::Enabled
                } else {
                    State::Disabled
                }),
            !mods_contain(self.requiredMods@, name@) ==> forall|i: int|
                first_match(self.optionalMods@, name@, i) ==> r == (if self.optionalMods@[i].Enabled {
                    State::OptionalEnabled
                } else {
                    State::OptionalDisabled
                }),
            !mods_contain(self.requiredMods@, name@) && !mods_contain(self.optionalMods@, name@)
                ==> r == State::Disabled,
    {
        let name_owned: String = name.to_owned();
        let n = self.requiredMods.len();
        let mut i: usize = 0;
        while i < n
            invariant
                i <= n,
                n == self.requiredMods@.len(),
                name_owned@ == name@,
                forall|j: int|
                    0 <= j < i ==> (#[trigger] self.requiredMods@[j].modName@) != name@,
            decreases n - i,
    {
            if self.requiredMods[i].modName == name_owned {
                return if self.requiredMods[i].Enabled {
                    State::Enabled
                } else {
                    State::Disabled
                };
            }
            i = i + 1;
        }
        let m = self.optionalMods.len();
        let mut k: usize = 0;
        while k < m
            invariant
                k <= m,
                m == self.optionalMods@.len(),
                name_owned@ == name@,
                !mods_contain(self.requiredMods@, name@),
                forall|j: int|
                    0 <= j < k ==> (#[trigger] self.optionalMods@[j].modName@) != name@,
            decreases m - k,
        {
            if self.optionalMods[k].modName == name_owned {
                return if self.optionalMods[k].Enabled {
                    State::OptionalEnabled
                } else {
                    State::OptionalDisabled
                };
            }
            k = k + 1;
        }
        State::Disabled
    }

    /// Records `hash` as the digest of the mod named `name`: on the first
    /// matching required entry, else on the first matching optional entry,
    /// else nowhere.
    pub fn set_hash(&mut self, name: &str, hash: String)
        ensures
            final(self).repoName == old(self).repoName,
            final(self).clientParameters == old(self).clientParameters,
            final(self).basePath == old(self).basePath,
            final(self).servers == old(self).servers,
            final(self).version == old(self).version,
            final(self).imageChecksum == old(self).imageChecksum,
            forall|i: int|
                first_match(old(self).requiredMods@, name@, i) ==> final(self).requiredMods@
                    == old(self).requiredMods@.update(
                    i,
                    Mod {
                        modName: old(self).requiredMods@[i].modName,
                        Enabled: old(self).requiredMods@[i].Enabled,
                        checkSum: hash,
                    },
                ) && final(self).optionalMods == old(self).optionalMods,
            !mods_contain(old(self).requiredMods@, name@) ==> final(self).requiredMods == old(
                self,
            ).requiredMods && forall|i: int|
                first_match(old(self).optionalMods@, name@, i) ==> final(self).optionalMods@
                    == old(self).optionalMods@.update(
                    i,
                    Mod {
                        modName: old(self).optionalMods@[i].modName,
                        Enabled: old(self).optionalMods@[i].Enabled,
                        checkSum: hash,
                    },
                ),
            !mods_contain(old(self).requiredMods@, name@) && !mods_contain(
                old(self).optionalMods@,
                name@,
            ) ==> final(self).optionalMods == old(self).optionalMods,
    {
        let name_owned: String = name.to_owned();
        let n = self.requiredMods.len();
        let mut i: usize = 0;
        while i < n
            invariant
                i <= n,
                n == self.requiredMods@.len(),
                name_owned@ == name@,
                *self == *old(self),
                forall|j: int|
                    0 <= j < i ==> (#[trigger] self.requiredMods@[j].modName@) != name@,
            decreases n - i,
        {
            if self.requiredMods[i].modName == name_owned {
                self.requiredMods[i].checkSum = hash;
                proof {
                    assert(first_match(old(self).requiredMods@, name@, i as int));
                    assert forall|p: int|
                        first_match(old(self).requiredMods@, name@, p) implies p == i as int by {
                        if p < i {
                            assert(old(self).requiredMods@[p].modName@ != name@);
                        }
                        if p > i {
                            assert(old(self).requiredMods@[i as int].modName@ != name@);
                        }
                    }
                }
                return ;
            }
            i = i + 1;
        }
        let m = self.optionalMods.len();
        let mut k: usize = 0;
        while k < m
            invariant
                k <= m,
                m == self.optionalMods@.len(),
                name_owned@ == name@,
                *self == *old(self),
                !mods_contain(self.requiredMods@, name@),
                forall|j: int|
                    0 <= j < k ==> (#[trigger] self.optionalMods@[j].modName@) != name@,
            decreases m - k,
        {
            if self.optionalMods[k].modName == name_owned {
                self.optionalMods[k].checkSum = hash;
                proof {
                    assert(first_match(old(self).optionalMods@, name@, k as int));
                    assert forall|p: int|
                        first_match(old(self).optionalMods@, name@, p) implies p == k as int by {
                        if p < k {
                            assert(old(self).optionalMods@[p].modName@ != name@);
                        }
                        if p > k {
                            assert(old(self).optionalMods@[k as int].modName@ != name@);
                        }
                    }
                }
                return ;
            }
            k = k + 1;
        }
    }
}

/// A fresh descriptor for a new repository: the given name, mod root and
/// servers, the stock client parameters and version, and nothing tracked
/// yet.
pub fn make_repo(name: String, base_path: String, servers: Vec<Server>) -> (r: Repo)
    ensures
        r.repoName == name,
        r.basePath == base_path,
        r.servers == servers,
        r.clientParameters@ == "-noSplash -skipIntro"@,
        r.version@ == "3.0.0.0"@,
        r.requiredMods@.len() == 0,
        r.optionalMods@.len() == 0,
        r.imageChecksum@.len() == 0,
{
    Repo {
        repoName: name,
        clientParameters: "-noSplash -skipIntro".to_owned(),
        basePath: base_path,
        requiredMods: Vec::new(),
        optionalMods: Vec::new(),
        servers,
        version: default_version(),
        imageChecksum: String::new(),
    }
}

} // verus!
