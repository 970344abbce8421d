use vstd::prelude::*;
use crate::drive_model::opt_view;
use crate::error::ConfigStateError;

verus! {

/// Pairs of a Drive name and the folder that holds its files.
pub type PathPairs = Seq<(Seq<char>, Seq<char>)>;

/// The map from Drive names to folders that a list of pairs describes.
pub open spec fn pairs_map(s: PathPairs) -> Map<Seq<char>, Seq<char>>
    decreases s.len(),
{
    if s.len() == 0 {
        Map::empty()
    } else {
        pairs_map(s.drop_last()).insert(s.last().0, s.last().1)
    }
}

/// No Drive name occurs twice.
pub open spec fn names_distinct(s: PathPairs) -> bool {
    forall|i: int, j: int| 0 <= i < s.len() && 0 <= j < s.len() && i != j ==> #[trigger] s[i].0 != #[trigger] s[j].0
}

/// A name is in the map exactly when some pair holds it.
pub proof fn lemma_pairs_dom(s: PathPairs, k: Seq<char>)
    ensures
        pairs_map(s).contains_key(k) <==> exists|i: int| 0 <= i < s.len() && #[trigger] s[i].0 == k,
    decreases s.len(),
{
    if s.len() > 0 {
        lemma_pairs_dom(s.drop_last(), k);
        if pairs_map(s.drop_last()).contains_key(k) {
            let i = choose|i: int| 0 <= i < s.drop_last().len() && #[trigger] s.drop_last()[i].0 == k;
            assert(s[i].0 == k);
        }
        if exists|i: int| 0 <= i < s.len() && #[trigger] s[i].0 == k {
            let i = choose|i: int| 0 <= i < s.len() && #[trigger] s[i].0 == k;
            if i < s.len() - 1 {
                assert(s.drop_last()[i].0 == k);
            }
        }
    }
}

/// With distinct names, the map gives each pair's folder for its name.
pub proof fn lemma_pairs_value(s: PathPairs, i: int)
    requires
        names_distinct(s),
        0 <= i < s.len(),
    ensures
        pairs_map(s).contains_key(s[i].0),
        pairs_map(s)[s[i].0] == s[i].1,
    decreases s.len(),
{
    if i < s.len() - 1 {
        lemma_pairs_value(s.drop_last(), i);
    }
}

/// Replacing the pair at `i` by one with the same name sets that name's folder.
pub proof fn lemma_pairs_update(s: PathPairs, i: int, v: Seq<char>)
    requires
        names_distinct(s),
        0 <= i < s.len(),
    ensures
        pairs_map(s.update(i, (s[i].0, v))) == pairs_map(s).insert(s[i].0, v),
    decreases s.len(),
{
    let t = s.update(i, (s[i].0, v));
    if i == s.len() - 1 {
        assert(t.drop_last() =~= s.drop_last());
        assert(pairs_map(t) =~= pairs_map(s).insert(s[i].0, v));
    } else {
        lemma_pairs_update(s.drop_last(), i, v);
        assert(t.drop_last() =~= s.drop_last().update(i, (s[i].0, v)));
        assert(pairs_map(t) =~= pairs_map(s).insert(s[i].0, v));
    }
}

/// Removing the pair at `i` removes its name.
pub proof fn lemma_pairs_remove(s: PathPairs, i: int)
    requires
        names_distinct(s),
        0 <= i < s.len(),
    ensures
        pairs_map(s.remove(i)) == pairs_map(s).remove(s[i].0),
    decreases s.len(),
{
    let k = s[i].0;
    if i == s.len() - 1 {
        assert(s.remove(i) =~= s.drop_last());
        lemma_pairs_dom(s.drop_last(), k);
        assert(!pairs_map(s.drop_last()).contains_key(k)) by {
            if pairs_map(s.drop_last()).contains_key(k) {
                let j = choose|j: int| 0 <= j < s.drop_last().len() && #[trigger] s.drop_last()[j].0 == k;
                assert(s[j].0 == k);
            }
        }
        assert(pairs_map(s.remove(i)) =~= pairs_map(s).remove(k));
    } else {
        lemma_pairs_remove(s.drop_last(), i);
        assert(s.remove(i).drop_last() =~= s.drop_last().remove(i));
        assert(s.remove(i).last() == s.last());
        assert(s.last().0 != k);
        assert(pairs_map(s.remove(i)) =~= pairs_map(s).remove(k));
    }
}

/// A Drive name together with the user key that opens it.
#[derive(Debug)]
pub struct DriveAndKeyId {
    pub drive_id: String,
    pub user_key_id: String,
}

impl DriveAndKeyId {
    pub fn new(drive_id: &String, user_key_id: &String) -> (res: DriveAndKeyId)
        ensures
            res.drive_id@ == drive_id@,
            res.user_key_id@ == user_key_id@,
    {
        DriveAndKeyId { drive_id: drive_id.clone(), user_key_id: user_key_id.clone() }
    }
}

/// The client's configuration: the selected user key, the account, and where each
/// Drive's files live.
#[derive(Debug)]
pub struct GlobalConfig {
    selected_user_key_id: Option<String>,
    account_id: Option<u128>,
    drive_paths: Vec<(String, String)>,
}

impl GlobalConfig {
    /// The selected user key.
    pub closed spec fn selected_key(&self) -> Option<Seq<char>> {
        opt_view(self.selected_user_key_id)
    }

    /// The logged-in account.
    pub closed spec fn account(&self) -> Option<u128> {
        self.account_id
    }

    /// The pairs of Drive name and folder, in the order they were first recorded.
    pub closed spec fn path_pairs(&self) -> PathPairs {
        self.drive_paths@.map_values(|p: (String, String)| (p.0@, p.1@))
    }

    /// The folder of each Drive.
    pub open spec fn paths(&self) -> Map<Seq<char>, Seq<char>> {
        pairs_map(self.path_pairs())
    }

    /// No Drive is recorded twice.
    #[verifier::type_invariant]
    closed spec fn wf(&self) -> bool {
        names_distinct(self.path_pairs())
    }

    /// A configuration with nothing in it.
    pub fn new() -> (res: GlobalConfig)
        ensures
            res.selected_key() is None,
            res.account() is None,
            res.paths() == Map::<Seq<char>, Seq<char>>::empty(),
    {
        let res = GlobalConfig { selected_user_key_id: None, account_id: None, drive_paths: Vec::new() };
        assert(res.path_pairs() =~= Seq::<(Seq<char>, Seq<char>)>::empty());
        res
    }

    /// The selected user key, if one is selected.
    pub fn selected_user_key_id(&self) -> (res: Result<String, ConfigStateError>)
        ensures
            match self.selected_key() {
                Some(k) => res matches Ok(s) && s@ == k,
                None => res matches Err(ConfigStateError::NoKeySelected),
            },
    {
        match &self.selected_user_key_id {
            Some(k) => Ok(k.clone()),
            None => Err(ConfigStateError::NoKeySelected),
        }
    }

    /// Selects a user key.
    pub fn select_user_key_id(&mut self, user_key_id: String)
        ensures
            final(self).selected_key() == Some(user_key_id@),
            final(self).account() == old(self).account(),
            final(self).path_pairs() == old(self).path_pairs(),
    {
        proof {
            use_type_invariant(&*self);
        }
        self.selected_user_key_id = Some(user_key_id);
    }

    /// Deselects the selected user key.
    pub fn deselect_user_key_id(&mut self)
        ensures
            final(self).selected_key() is None,
            final(self).account() == old(self).account(),
            final(self).path_pairs() == old(self).path_pairs(),
    {
        proof {
            use_type_invariant(&*self);
        }
        self.selected_user_key_id = None;
    }

    /// After the key `name` is erased: deselects it if it was the selected key. Returns
    /// whether the configuration changed.
    pub fn deselect_if_selected(&mut self, name: &String) -> (changed: bool)
        ensures
            changed == (old(self).selected_key() == Some(name@)),
            final(self).selected_key() == (if changed { None } else { old(self).selected_key() }),
            final(self).account() == old(self).account(),
            final(self).path_pairs() == old(self).path_pairs(),
    {
        let hit = match &self.selected_user_key_id {
            Some(k) => *k == *name,
            None => false,
        };
        if hit {
            self.deselect_user_key_id();
        }
        hit
    }

    /// After the key `old_name` is renamed `new_name`: keeps it selected if it was. Returns
    /// whether the configuration changed.
    pub fn rename_selection(&mut self, old_name: &String, new_name: &String) -> (changed: bool)
        ensures
            changed == (old(self).selected_key() == Some(old_name@)),
            final(self).selected_key() == (if changed { Some(new_name@) } else { old(self).selected_key() }),
            final(self).account() == old(self).account(),
            final(self).path_pairs() == old(self).path_pairs(),
    {
        let hit = match &self.selected_user_key_id {
            Some(k) => *k == *old_name,
            None => false,
        };
        if hit {
            self.select_user_key_id(new_name.clone());
        }
        hit
    }

    /// The logged-in account, if any.
    pub fn get_account_id(&self) -> (res: Result<u128, ConfigStateError>)
        ensures
            match self.account() {
                Some(a) => res matches Ok(x) && x == a,
                None => res matches Err(ConfigStateError::NoAccountId),
            },
    {
        match self.account_id {
            Some(a) => Ok(a),
            None => Err(ConfigStateError::NoAccountId),
        }
    }

    /// Records the logged-in account.
    pub fn set_account_id(&mut self, account_id: u128)
        ensures
            final(self).account() == Some(account_id),
            final(self).selected_key() == old(self).selected_key(),
            final(self).path_pairs() == old(self).path_pairs(),
    {
        proof {
            use_type_invariant(&*self);
        }
        self.account_id = Some(account_id);
    }

    /// Forgets the logged-in account.
    pub fn remove_account_id(&mut self)
        ensures
            final(self).account() is None,
            final(self).selected_key() == old(self).selected_key(),
            final(self).path_pairs() == old(self).path_pairs(),
    {
        proof {
            use_type_invariant(&*self);
        }
        self.account_id = None;
    }

    /// The position of the Drive `drive_id` among the recorded pairs.
    fn position(&self, drive_id: &String) -> (res: Option<usize>)
        ensures
            match res {
                Some(i) => i < self.path_pairs().len() && self.path_pairs()[i as int].0 == drive_id@,
                None => forall|i: int| 0 <= i < self.path_pairs().len() ==> #[trigger] self.path_pairs()[i].0 != drive_id@,
            },
    {
        let n = self.drive_paths.len();
        for i in 0..n
            invariant
                n == self.drive_paths@.len(),
                forall|j: int| 0 <= j < i ==> #[trigger] self.path_pairs()[j].0 != drive_id@,
        {
            if self.drive_paths[i].0 == *drive_id {
                return Some(i);
            }
        }
        None
    }

    /// The recorded pairs of Drive name and folder, in the order they were first recorded.
    pub fn drive_paths(&self) -> (res: Vec<(String, String)>)
        ensures
            res@.map_values(|p: (String, String)| (p.0@, p.1@)) == self.path_pairs(),
    {
        let mut res: Vec<(String, String)> = Vec::new();
        let n = self.drive_paths.len();
        for i in 0..n
            invariant
                n == self.drive_paths@.len(),
                res@.map_values(|p: (String, String)| (p.0@, p.1@)) =~= self.path_pairs().take(i as int),
        {
            let ghost before = res@.map_values(|p: (String, String)| (p.0@, p.1@));
            let pair = (self.drive_paths[i].0.clone(), self.drive_paths[i].1.clone());
            res.push(pair);
            assert(res@.map_values(|p: (String, String)| (p.0@, p.1@)) =~= before.push(self.path_pairs()[i as int]));
            assert(self.path_pairs().take(i + 1) =~= self.path_pairs().take(i as int).push(self.path_pairs()[i as int]));
        }
        assert(self.path_pairs().take(n as int) =~= self.path_pairs());
        res
    }

    /// The folder of the Drive `drive_id`.
    pub fn get_path(&self, drive_id: &String) -> (res: Result<String, ConfigStateError>)
        ensures
            match self.paths().get(drive_id@) {
                Some(p) => res matches Ok(s) && s@ == p,
                None => res matches Err(ConfigStateError::LostPath(id)) && id@ == drive_id@,
            },
    {
        proof {
            use_type_invariant(self);
            lemma_pairs_dom(self.path_pairs(), drive_id@);
        }
        match self.position(drive_id) {
            Some(i) => {
                proof {
                    lemma_pairs_value(self.path_pairs(), i as int);
                }
                Ok(self.drive_paths[i].1.clone())
            },
            None => Err(ConfigStateError::LostPath(drive_id.clone())),
        }
    }

    /// Records the folder of the Drive `drive_id`.
    pub fn set_path(&mut self, drive_id: &String, path: &String)
        ensures
            final(self).paths() == old(self).paths().insert(drive_id@, path@),
            final(self).selected_key() == old(self).selected_key(),
            final(self).account() == old(self).account(),
    {
        proof {
            use_type_invariant(&*self);
        }
        let ghost s = self.path_pairs();
        match self.position(drive_id) {
            Some(i) => {
                proof {
                    lemma_pairs_update(s, i as int, path@);
                }
                let mut v: Vec<(String, String)> = Vec::new();
                std::mem::swap(&mut v, &mut self.drive_paths);
                v.set(i, (drive_id.clone(), path.clone()));
                assert(v@.map_values(|p: (String, String)| (p.0@, p.1@)) =~= s.update(i as int, (s[i as int].0, path@)));
                self.drive_paths = v;
            },
            None => {
                let mut v: Vec<(String, String)> = Vec::new();
                std::mem::swap(&mut v, &mut self.drive_paths);
                v.push((drive_id.clone(), path.clone()));
                assert(v@.map_values(|p: (String, String)| (p.0@, p.1@)) =~= s.push((drive_id@, path@)));
                assert(s.push((drive_id@, path@)).drop_last() =~= s);
                self.drive_paths = v;
            },
        }
    }

    /// Forgets the folder of the Drive `drive_id`; fails when none is recorded.
    pub fn remove_path(&mut self, drive_id: &String) -> (res: Result<(), ConfigStateError>)
        ensures
            final(self).paths() == old(self).paths().remove(drive_id@),
            res is Ok <==> old(self).paths().contains_key(drive_id@),
            res matches Err(ConfigStateError::LostPath(id)) ==> id@ == drive_id@,
            res is Err ==> res matches Err(ConfigStateError::LostPath(_)),
            final(self).selected_key() == old(self).selected_key(),
            final(self).account() == old(self).account(),
    {
        proof {
            use_type_invariant(&*self);
        }
        let ghost s = self.path_pairs();
        proof {
            lemma_pairs_dom(s, drive_id@);
        }
        match self.position(drive_id) {
            Some(i) => {
                proof {
                    lemma_pairs_remove(s, i as int);
                }
                let mut v: Vec<(String, String)> = Vec::new();
                std::mem::swap(&mut v, &mut self.drive_paths);
                v.remove(i);
                assert(v@.map_values(|p: (String, String)| (p.0@, p.1@)) =~= s.remove(i as int));
                self.drive_paths = v;
                Ok(())
            },
            None => {
                assert(self.paths() =~= self.paths().remove(drive_id@));
                Err(ConfigStateError::LostPath(drive_id.clone()))
            },
        }
    }

    /// The folder of the Drive `drive_id` (the same lookup as `get_path`).
    pub fn get_origin(&self, drive_id: &String) -> (res: Result<String, ConfigStateError>)
        ensures
            match self.paths().get(drive_id@) {
                Some(p) => res matches Ok(s) && s@ == p,
                None => res matches Err(ConfigStateError::LostPath(id)) && id@ == drive_id@,
            },
    {
        self.get_path(drive_id)
    }
}

/// What a Drive operation works on: the Drive with its key, and the configuration.
#[derive(Debug)]
pub struct DriveOperationPayload {
    pub id: DriveAndKeyId,
    pub global: GlobalConfig,
}

} // verus!
