//! The template catalog and users' favorites, with each template's count of
//! favorites kept equal to its favorite rows.
use vstd::prelude::*;
use crate::enums::{ProductEdition, TemplateTopic};

verus! {

/// A shared catalog entry.
pub struct TaskTemplate {
    pub id: i64,
    pub name: String,
    pub topic: TemplateTopic,
    /// Lowest tier the template is meant for.
    pub edition: ProductEdition,
    pub fav_count: i32,
}

/// User `user_id` marked template `template_id` as a favorite.
#[derive(Clone, Copy, Debug, PartialEq, Eq, Structural)]
pub struct Favorite {
    pub user_id: i64,
    pub template_id: i64,
}

/// Why a favorite operation was refused. A refused operation changes nothing.
#[derive(Clone, Copy, Debug, PartialEq, Eq, Structural)]
pub enum FavoriteError {
    TemplateNotFound,
    AlreadyFavorite,
    CountOverflow,
}

/// Number of favorites of template `tid` in `favs`.
pub open spec fn count_favs(favs: Seq<Favorite>, tid: i64) -> nat
    decreases favs.len(),
{
    if favs.len() == 0 {
        0
    } else {
        count_favs(favs.drop_last(), tid) + if favs.last().template_id == tid {
            1nat
        } else {
            0nat
        }
    }
}

proof fn lemma_count_concat(a: Seq<Favorite>, b: Seq<Favorite>, tid: i64)
    ensures
        count_favs(a + b, tid) == count_favs(a, tid) + count_favs(b, tid),
    decreases b.len(),
{
    if b.len() == 0 {
        assert(a + b =~= a);
    } else {
        lemma_count_concat(a, b.drop_last(), tid);
        assert((a + b).drop_last() =~= a + b.drop_last());
    }
}

proof fn lemma_count_push(favs: Seq<Favorite>, f: Favorite)
    ensures
        forall|tid: i64|
            #[trigger] count_favs(favs.push(f), tid) == count_favs(favs, tid) + if f.template_id
                == tid {
                1nat
            } else {
                0nat
            },
{
    assert(favs.push(f).drop_last() =~= favs);
}

proof fn lemma_count_remove(favs: Seq<Favorite>, k: int)
    requires
        0 <= k < favs.len(),
    ensures
        forall|tid: i64|
            #[trigger] count_favs(favs, tid) == count_favs(favs.remove(k), tid) + if favs[k].template_id
                == tid {
                1nat
            } else {
                0nat
            },
{
    let a = favs.subrange(0, k);
    let b = favs.subrange(k + 1, favs.len() as int);
    assert(favs =~= a + seq![favs[k]] + b);
    assert(favs.remove(k) =~= a + b);
    assert forall|tid: i64|
        #[trigger] count_favs(favs, tid) == count_favs(favs.remove(k), tid) + if favs[k].template_id
            == tid {
            1nat
        } else {
            0nat
        } by {
        lemma_count_concat(a + seq![favs[k]], b, tid);
        lemma_count_concat(a, seq![favs[k]], tid);
        lemma_count_concat(a, b, tid);
        assert(seq![favs[k]].drop_last() =~= Seq::<Favorite>::empty());
        assert(count_favs(Seq::<Favorite>::empty(), tid) == 0);
        assert(count_favs(favs, tid) == count_favs(a + seq![favs[k]] + b, tid));
        assert(count_favs(favs.remove(k), tid) == count_favs(a + b, tid));
    }
}

proof fn lemma_count_absent(favs: Seq<Favorite>, tid: i64)
    requires
        forall|k: int| 0 <= k < favs.len() ==> #[trigger] favs[k].template_id != tid,
    ensures
        count_favs(favs, tid) == 0,
    decreases favs.len(),
{
    if favs.len() > 0 {
        assert(favs.last().template_id != tid);
        lemma_count_absent(favs.drop_last(), tid);
    }
}

/// Templates and favorites.
pub struct TemplateCatalog {
    pub templates: Vec<TaskTemplate>,
    pub favorites: Vec<Favorite>,
}

impl TemplateCatalog {
    /// Template ids are unique, a user favors a template at most once, every
    /// favorite names a template, and each template's count equals its favorites.
    pub open spec fn wf(&self) -> bool {
        &&& forall|i: int, j: int|
            0 <= i < j < self.templates@.len() ==> self.templates@[i].id != self.templates@[j].id
        &&& forall|i: int, j: int|
            0 <= i < j < self.favorites@.len() ==> self.favorites@[i] != self.favorites@[j]
        &&& forall|k: int|
            0 <= k < self.favorites@.len() ==> self.has_template(
                #[trigger] self.favorites@[k].template_id,
            )
        &&& forall|i: int|
            0 <= i < self.templates@.len() ==> #[trigger] self.templates@[i].fav_count
                == count_favs(self.favorites@, self.templates@[i].id)
    }

    pub open spec fn has_template(&self, tid: i64) -> bool {
        exists|i: int| 0 <= i < self.templates@.len() && #[trigger] self.templates@[i].id == tid
    }

    pub open spec fn is_favorite(&self, uid: i64, tid: i64) -> bool {
        self.favorites@.contains(Favorite { user_id: uid, template_id: tid })
    }

    /// Position of the template `tid` (meaningful when `has_template(tid)`).
    pub open spec fn template_index(&self, tid: i64) -> int {
        choose|i: int| 0 <= i < self.templates@.len() && #[trigger] self.templates@[i].id == tid
    }

    proof fn lemma_template_index(&self, i: int)
        requires
            self.wf(),
            0 <= i < self.templates@.len(),
        ensures
            self.template_index(self.templates@[i].id) == i,
    {
        let tid = self.templates@[i].id;
        assert(self.has_template(tid));
        let j = self.template_index(tid);
        if j != i {
            if j < i {
                assert(self.templates@[j].id != self.templates@[i].id);
            } else {
                assert(self.templates@[i].id != self.templates@[j].id);
            }
        }
    }

    /// An empty catalog.
    pub fn new() -> (r: TemplateCatalog)
        ensures
            r.wf(),
            r.templates@.len() == 0,
            r.favorites@.len() == 0,
    {
        TemplateCatalog { templates: Vec::new(), favorites: Vec::new() }
    }

    /// Adds a template with no favorites.
    pub fn add_template(
        &mut self,
        id: i64,
        name: String,
        topic: TemplateTopic,
        edition: ProductEdition,
    ) -> (r: bool)
        requires
            old(self).wf(),
        ensures
            final(self).wf(),
            final(self).favorites@ == old(self).favorites@,
            r == !old(self).has_template(id),
            !r ==> final(self).templates@ == old(self).templates@,
            r ==> final(self).templates@ == old(self).templates@.push(
                TaskTemplate { id, name, topic, edition, fav_count: 0 },
            ),
    {
        if self.find_template(id).is_some() {
            return false;
        }
        proof {
            assert forall|k: int| 0 <= k < self.favorites@.len() implies #[trigger] self.favorites@[k].template_id != id by {
                assert(self.has_template(self.favorites@[k].template_id));
            }
            lemma_count_absent(self.favorites@, id);
        }
        self.templates.push(TaskTemplate { id, name, topic, edition, fav_count: 0 });
        proof {
            assert forall|k: int| 0 <= k < self.favorites@.len() implies self.has_template(
                #[trigger] self.favorites@[k].template_id,
            ) by {
                let t = self.favorites@[k].template_id;
                assert(old(self).has_template(t));
                let i = choose|i: int| 0 <= i < old(self).templates@.len() && #[trigger] old(self).templates@[i].id == t;
                assert(self.templates@[i].id == t);
            }
        }
        true
    }

    /// Marks template `tid` as a favorite of `uid` and counts it.
    pub fn add_favorite(&mut self, uid: i64, tid: i64) -> (r: Result<(), FavoriteError>)
        requires
            old(self).wf(),
        ensures
            final(self).wf(),
            (r == Err::<(), FavoriteError>(FavoriteError::TemplateNotFound)) <==> !old(self).has_template(tid),
            (r == Err::<(), FavoriteError>(FavoriteError::AlreadyFavorite)) <==> (old(self).has_template(tid) && old(self).is_favorite(uid, tid)),
            (r == Err::<(), FavoriteError>(FavoriteError::CountOverflow)) <==> (old(self).has_template(tid) && !old(self).is_favorite(uid, tid) && old(self).templates@[old(self).template_index(tid)].fav_count == i32::MAX),
            r.is_err() ==> final(self).templates@ == old(self).templates@ && final(self).favorites@ == old(self).favorites@,
            r.is_ok() ==> {
                let i = old(self).template_index(tid);
                let t = old(self).templates@[i];
                &&& final(self).favorites@ == old(self).favorites@.push(
                    Favorite { user_id: uid, template_id: tid },
                )
                &&& final(self).templates@ == old(self).templates@.update(
                    i,
                    TaskTemplate { fav_count: (t.fav_count + 1) as i32, ..t },
                )
            },
    {
        let i = match self.find_template(tid) {
            None => return Err(FavoriteError::TemplateNotFound),
            Some(i) => i,
        };
        proof {
            self.lemma_template_index(i as int);
        }
        if self.find_favorite(uid, tid).is_some() {
            return Err(FavoriteError::AlreadyFavorite);
        }
        if self.templates[i].fav_count == i32::MAX {
            return Err(FavoriteError::CountOverflow);
        }
        let f = Favorite { user_id: uid, template_id: tid };
        proof {
            lemma_count_push(self.favorites@, f);
        }
        self.templates[i].fav_count = self.templates[i].fav_count + 1;
        self.favorites.push(f);
        proof {
            let t = old(self).templates@[i as int];
            assert(self.templates@ =~= old(self).templates@.update(
                i as int,
                TaskTemplate { fav_count: (t.fav_count + 1) as i32, ..t },
            ));
            assert forall|k: int| 0 <= k < self.favorites@.len() implies self.has_template(
                #[trigger] self.favorites@[k].template_id,
            ) by {
                let x = self.favorites@[k].template_id;
                assert(old(self).has_template(x) || x == tid);
                if x != tid {
                    let j = choose|j: int| 0 <= j < old(self).templates@.len() && #[trigger] old(self).templates@[j].id == x;
                    assert(self.templates@[j].id == x);
                } else {
                    assert(self.templates@[i as int].id == x);
                }
            }
            assert forall|a: int, b: int|
                0 <= a < b < self.favorites@.len() implies self.favorites@[a]
                != self.favorites@[b] by {
                if b == old(self).favorites@.len() {
                    assert(!old(self).favorites@.contains(f));
                    assert(old(self).favorites@[a] != f);
                }
            }
        }
        Ok(())
    }

    /// Removes template `tid` from the favorites of `uid` and uncounts it.
    /// Returns whether it was a favorite; when it was not, nothing changes.
    pub fn delete_favorite(&mut self, uid: i64, tid: i64) -> (r: Result<bool, FavoriteError>)
        requires
            old(self).wf(),
        ensures
            final(self).wf(),
            (r == Err::<bool, FavoriteError>(FavoriteError::TemplateNotFound)) <==> !old(self).has_template(tid),
            r == Ok::<bool, FavoriteError>(true) <==> (old(self).has_template(tid) && old(self).is_favorite(uid, tid)),
            r == Ok::<bool, FavoriteError>(false) <==> (old(self).has_template(tid) && !old(self).is_favorite(uid, tid)),
            r != Ok::<bool, FavoriteError>(true) ==> final(self).templates@ == old(self).templates@ && final(self).favorites@ == old(self).favorites@,
            r == Ok::<bool, FavoriteError>(true) ==> {
                let i = old(self).template_index(tid);
                let t = old(self).templates@[i];
                &&& exists|k: int|
                    0 <= k < old(self).favorites@.len() && #[trigger] old(self).favorites@[k] == (
                    Favorite { user_id: uid, template_id: tid }) && final(self).favorites@ == old(self).favorites@.remove(k)
                &&& final(self).templates@ == old(self).templates@.update(
                    i,
                    TaskTemplate { fav_count: (t.fav_count - 1) as i32, ..t },
                )
            },
    {
        let i = match self.find_template(tid) {
            None => return Err(FavoriteError::TemplateNotFound),
            Some(i) => i,
        };
        proof {
            self.lemma_template_index(i as int);
        }
        let k = match self.find_favorite(uid, tid) {
            None => return Ok(false),
            Some(k) => k,
        };
        proof {
            lemma_count_remove(self.favorites@, k as int);
            assert(count_favs(self.favorites@, tid) >= 1);
        }
        self.templates[i].fav_count = self.templates[i].fav_count - 1;
        self.favorites.remove(k);
        proof {
            let t = old(self).templates@[i as int];
            assert(self.templates@ =~= old(self).templates@.update(
                i as int,
                TaskTemplate { fav_count: (t.fav_count - 1) as i32, ..t },
            ));
            assert forall|a: int| 0 <= a < self.favorites@.len() implies self.has_template(
                #[trigger] self.favorites@[a].template_id,
            ) by {
                let x = self.favorites@[a].template_id;
                let oa = if a < k { a } else { a + 1 };
                assert(self.favorites@[a] == old(self).favorites@[oa]);
                assert(old(self).has_template(x));
                let j = choose|j: int| 0 <= j < old(self).templates@.len() && #[trigger] old(self).templates@[j].id == x;
                assert(self.templates@[j].id == x);
            }
            assert forall|a: int, b: int|
                0 <= a < b < self.favorites@.len() implies self.favorites@[a]
                != self.favorites@[b] by {
                let oa = if a < k { a } else { a + 1 };
                let ob = if b < k { b } else { b + 1 };
                assert(self.favorites@[a] == old(self).favorites@[oa]);
                assert(self.favorites@[b] == old(self).favorites@[ob]);
            }
        }
        Ok(true)
    }

    fn find_template(&self, tid: i64) -> (r: Option<usize>)
        ensures
            match r {
                Some(i) => i < self.templates@.len() && self.templates@[i as int].id == tid,
                None => !self.has_template(tid),
            },
    {
        let mut i: usize = 0;
        while i < self.templates.len()
            invariant
                i <= self.templates@.len(),
                forall|j: int| 0 <= j < i ==> #[trigger] self.templates@[j].id != tid,
            decreases self.templates@.len() - i,
        {
            if self.templates[i].id == tid {
                return Some(i);
            }
            i = i + 1;
        }
        None
    }

    fn find_favorite(&self, uid: i64, tid: i64) -> (r: Option<usize>)
        ensures
            match r {
                Some(k) => k < self.favorites@.len() && self.favorites@[k as int] == Favorite {
                    user_id: uid,
                    template_id: tid,
                },
                None => !self.is_favorite(uid, tid),
            },
    {
        let mut k: usize = 0;
        while k < self.favorites.len()
            invariant
                k <= self.favorites@.len(),
                forall|j: int|
                    0 <= j < k ==> #[trigger] self.favorites@[j] != (Favorite {
                        user_id: uid,
                        template_id: tid,
                    }),
            decreases self.favorites@.len() - k,
        {
            let f = self.favorites[k];
            if f.user_id == uid && f.template_id == tid {
                return Some(k);
            }
            k = k + 1;
        }
        None
    }
}

} // verus!
