//! The store: a mapping from section name to section, each section a mapping
//! from register name to entry. Keys are unique and listed in insertion
//! order; lookups are stated pointwise through `entry_at`.

use vstd::prelude::*;
use crate::entry::{Entry, EntrySnap};
use crate::util::str_eq;

verus! {

/// One named register and its payload.
pub struct RegisterSlot {
    pub name: String,
    pub entry: Entry,
}

/// One namespace bucket: a register-name to entry mapping.
pub struct SectionData {
    pub name: String,
    pub registers: Vec<RegisterSlot>,
}

/// The whole registry: a section-name to section mapping, the unit of
/// persistence.
pub struct Store {
    pub sections: Vec<SectionData>,
}

/// The entry stored under `name`, scanning from the most recently written.
pub open spec fn reg_get(regs: Seq<RegisterSlot>, name: Seq<char>) -> Option<EntrySnap>
    decreases regs.len(),
{
    if regs.len() == 0 {
        None
    } else if regs.last().name@ == name {
        Some(regs.last().entry@)
    } else {
        reg_get(regs.drop_last(), name)
    }
}

/// The registers of the section called `name`.
pub open spec fn sec_regs(secs: Seq<SectionData>, name: Seq<char>) -> Option<Seq<RegisterSlot>>
    decreases secs.len(),
{
    if secs.len() == 0 {
        None
    } else if secs.last().name@ == name {
        Some(secs.last().registers@)
    } else {
        sec_regs(secs.drop_last(), name)
    }
}

/// Register names are unique within a section.
pub open spec fn regs_distinct(regs: Seq<RegisterSlot>) -> bool {
    forall|i: int, j: int|
        0 <= i < j < regs.len() ==> regs[i].name@ != regs[j].name@
}

/// Section names are unique within a store.
pub open spec fn secs_distinct(secs: Seq<SectionData>) -> bool {
    forall|i: int, j: int|
        0 <= i < j < secs.len() ==> secs[i].name@ != secs[j].name@
}

impl SectionData {
    pub open spec fn wf(self) -> bool {
        &&& self.name@.len() > 0
        &&& regs_distinct(self.registers@)
        &&& forall|i: int| 0 <= i < self.registers@.len() ==> self.registers@[i].name@.len() > 0
    }
}

impl Store {
    /// Every section well-formed, and section names unique and non-empty.
    pub open spec fn wf(self) -> bool {
        &&& secs_distinct(self.sections@)
        &&& forall|i: int| 0 <= i < self.sections@.len() ==> self.sections@[i].wf()
    }

    /// The payload stored under (section, register), if any.
    pub open spec fn entry_at(self, section: Seq<char>, register: Seq<char>) -> Option<EntrySnap> {
        match sec_regs(self.sections@, section) {
            Some(regs) => reg_get(regs, register),
            None => None,
        }
    }

    /// Whether a section of this name exists.
    pub open spec fn has_section(self, section: Seq<char>) -> bool {
        sec_regs(self.sections@, section) is Some
    }

    /// An empty store: no sections, no entries.
    pub fn new_store() -> (r: Store)
        ensures
            r.wf(),
            r.sections@.len() == 0,
            forall|s: Seq<char>, rg: Seq<char>| #[trigger] r.entry_at(s, rg) is None,
            forall|s: Seq<char>| !#[trigger] r.has_section(s),
    {
        Store { sections: Vec::new() }
    }
}

proof fn lemma_reg_get_at(regs: Seq<RegisterSlot>, i: int, name: Seq<char>)
    requires
        regs_distinct(regs),
        0 <= i < regs.len(),
        regs[i].name@ == name,
    ensures
        reg_get(regs, name) == Some(regs[i].entry@),
    decreases regs.len(),
{
    if i == regs.len() - 1 {
    } else {
        assert(regs.last().name@ != name);
        assert(regs.drop_last()[i] == regs[i]);
        lemma_reg_get_at(regs.drop_last(), i, name);
    }
}

proof fn lemma_reg_get_absent(regs: Seq<RegisterSlot>, name: Seq<char>)
    requires
        forall|i: int| 0 <= i < regs.len() ==> regs[i].name@ != name,
    ensures
        reg_get(regs, name) is None,
    decreases regs.len(),
{
    if regs.len() > 0 {
        lemma_reg_get_absent(regs.drop_last(), name);
    }
}

proof fn lemma_reg_get_update(regs: Seq<RegisterSlot>, i: int, slot: RegisterSlot, k: Seq<char>)
    requires
        regs_distinct(regs),
        0 <= i < regs.len(),
        slot.name@ == regs[i].name@,
    ensures
        reg_get(regs.update(i, slot), k) == if k == slot.name@ {
            Some(slot.entry@)
        } else {
            reg_get(regs, k)
        },
    decreases regs.len(),
{
    let regs2 = regs.update(i, slot);
    if i == regs.len() - 1 {
        assert(regs2.last() == slot);
        assert(regs2.drop_last() =~= regs.drop_last());
        if k == slot.name@ {
        } else {
        }
    } else {
        assert(regs2.last() == regs.last());
        assert(regs2.drop_last() =~= regs.drop_last().update(i, slot));
        if regs.last().name@ == k {
            assert(regs[i].name@ != regs.last().name@);
        } else {
            lemma_reg_get_update(regs.drop_last(), i, slot, k);
        }
    }
}

proof fn lemma_reg_get_push(regs: Seq<RegisterSlot>, slot: RegisterSlot, k: Seq<char>)
    ensures
        reg_get(regs.push(slot), k) == if k == slot.name@ {
            Some(slot.entry@)
        } else {
            reg_get(regs, k)
        },
{
    assert(regs.push(slot).last() == slot);
    assert(regs.push(slot).drop_last() =~= regs);
}

proof fn lemma_reg_get_remove(regs: Seq<RegisterSlot>, i: int, k: Seq<char>)
    requires
        regs_distinct(regs),
        0 <= i < regs.len(),
    ensures
        reg_get(regs.remove(i), k) == if k == regs[i].name@ {
            None
        } else {
            reg_get(regs, k)
        },
    decreases regs.len(),
{
    let regs2 = regs.remove(i);
    if i == regs.len() - 1 {
        assert(regs2 =~= regs.drop_last());
        if k == regs[i].name@ {
            assert(forall|j: int| 0 <= j < regs.drop_last().len() ==> regs.drop_last()[j].name@ != k);
            lemma_reg_get_absent(regs.drop_last(), k);
        }
    } else {
        assert(regs2.last() == regs.last());
        assert(regs2.drop_last() =~= regs.drop_last().remove(i));
        if regs.last().name@ == k {
            assert(regs[i].name@ != k);
        } else {
            lemma_reg_get_remove(regs.drop_last(), i, k);
        }
    }
}

proof fn lemma_sec_get_at(secs: Seq<SectionData>, i: int, name: Seq<char>)
    requires
        secs_distinct(secs),
        0 <= i < secs.len(),
        secs[i].name@ == name,
    ensures
        sec_regs(secs, name) == Some(secs[i].registers@),
    decreases secs.len(),
{
    if i == secs.len() - 1 {
    } else {
        assert(secs.last().name@ != name);
        assert(secs.drop_last()[i] == secs[i]);
        lemma_sec_get_at(secs.drop_last(), i, name);
    }
}

proof fn lemma_sec_get_absent(secs: Seq<SectionData>, name: Seq<char>)
    requires
        forall|i: int| 0 <= i < secs.len() ==> secs[i].name@ != name,
    ensures
        sec_regs(secs, name) is None,
    decreases secs.len(),
{
    if secs.len() > 0 {
        lemma_sec_get_absent(secs.drop_last(), name);
    }
}

proof fn lemma_sec_get_update(secs: Seq<SectionData>, i: int, sec: SectionData, k: Seq<char>)
    requires
        secs_distinct(secs),
        0 <= i < secs.len(),
        sec.name@ == secs[i].name@,
    ensures
        sec_regs(secs.update(i, sec), k) == if k == sec.name@ {
            Some(sec.registers@)
        } else {
            sec_regs(secs, k)
        },
    decreases secs.len(),
{
    let secs2 = secs.update(i, sec);
    if i == secs.len() - 1 {
        assert(secs2.last() == sec);
        assert(secs2.drop_last() =~= secs.drop_last());
    } else {
        assert(secs2.last() == secs.last());
        assert(secs2.drop_last() =~= secs.drop_last().update(i, sec));
        if secs.last().name@ == k {
            assert(secs[i].name@ != secs.last().name@);
        } else {
            lemma_sec_get_update(secs.drop_last(), i, sec, k);
        }
    }
}

proof fn lemma_sec_get_push(secs: Seq<SectionData>, sec: SectionData, k: Seq<char>)
    ensures
        sec_regs(secs.push(sec), k) == if k == sec.name@ {
            Some(sec.registers@)
        } else {
            sec_regs(secs, k)
        },
{
    assert(secs.push(sec).last() == sec);
    assert(secs.push(sec).drop_last() =~= secs);
}

proof fn lemma_sec_get_remove(secs: Seq<SectionData>, i: int, k: Seq<char>)
    requires
        secs_distinct(secs),
        0 <= i < secs.len(),
    ensures
        sec_regs(secs.remove(i), k) == if k == secs[i].name@ {
            None
        } else {
            sec_regs(secs, k)
        },
    decreases secs.len(),
{
    let secs2 = secs.remove(i);
    if i == secs.len() - 1 {
        assert(secs2 =~= secs.drop_last());
        if k == secs[i].name@ {
            assert(forall|j: int| 0 <= j < secs.drop_last().len() ==> secs.drop_last()[j].name@ != k);
            lemma_sec_get_absent(secs.drop_last(), k);
        }
    } else {
        assert(secs2.last() == secs.last());
        assert(secs2.drop_last() =~= secs.drop_last().remove(i));
        if secs.last().name@ == k {
            assert(secs[i].name@ != k);
        } else {
            lemma_sec_get_remove(secs.drop_last(), i, k);
        }
    }
}

impl Store {
    /// The position of the section called `name`, if present.
    fn find_section(&self, name: &str) -> (r: Option<usize>)
        ensures
            match r {
                Some(i) => i < self.sections@.len() && self.sections@[i as int].name@ == name@,
                None => forall|i: int|
                    0 <= i < self.sections@.len() ==> self.sections@[i].name@ != name@,
            },
    {
        let mut i: usize = 0;
        while i < self.sections.len()
            invariant
                i <= self.sections@.len(),
                forall|j: int| 0 <= j < i ==> self.sections@[j].name@ != name@,
            decreases self.sections@.len() - i,
        {
            if str_eq(self.sections[i].name.as_str(), name) {
                return Some(i);
            }
            i = i + 1;
        }
        None
    }

    /// A read-only view of the entry under (section, register).
    pub fn get_entry(&self, section: &str, register: &str) -> (r: Option<&Entry>)
        requires
            self.wf(),
        ensures
            match r {
                Some(e) => self.entry_at(section@, register@) == Some(e@),
                None => self.entry_at(section@, register@) is None,
            },
    {
        let si = match self.find_section(section) {
            Some(si) => si,
            None => {
                proof {
                    lemma_sec_get_absent(self.sections@, section@);
                }
                return None;
            },
        };
        proof {
            lemma_sec_get_at(self.sections@, si as int, section@);
        }
        let regs = &self.sections[si].registers;
        let mut j: usize = 0;
        while j < regs.len()
            invariant
                j <= regs@.len(),
                si < self.sections@.len(),
                regs@ == self.sections@[si as int].registers@,
                regs_distinct(regs@),
                sec_regs(self.sections@, section@) == Some(regs@),
                self.entry_at(section@, register@) == reg_get(regs@, register@),
                forall|k: int| 0 <= k < j ==> regs@[k].name@ != register@,
            decreases regs@.len() - j,
        {
            if str_eq(regs[j].name.as_str(), register) {
                proof {
                    lemma_reg_get_at(regs@, j as int, register@);
                }
                return Some(&regs[j].entry);
            }
            j = j + 1;
        }
        proof {
            lemma_reg_get_absent(regs@, register@);
        }
        None
    }

    /// Writes `entry` under (section, register), creating the section and
    /// the register as needed; every other slot is untouched.
    pub fn set_entry(&mut self, section: &str, register: &str, entry: Entry)
        requires
            old(self).wf(),
            section@.len() > 0,
            register@.len() > 0,
        ensures
            final(self).wf(),
            forall|s: Seq<char>, rg: Seq<char>|
                #[trigger] final(self).entry_at(s, rg) == if s == section@ && rg == register@ {
                    Some(entry@)
                } else {
                    old(self).entry_at(s, rg)
                },
            forall|s: Seq<char>|
                #[trigger] final(self).has_section(s) == (s == section@
                    || old(self).has_section(s)),
    {
        let ghost old_secs = self.sections@;
        let si = match self.find_section(section) {
            Some(si) => si,
            None => {
                let slot = RegisterSlot { name: register.to_owned(), entry };
                let ghost slot_g = slot;
                let mut regs: Vec<RegisterSlot> = Vec::new();
                regs.push(slot);
                let sec = SectionData { name: section.to_owned(), registers: regs };
                let ghost sec_g = sec;
                self.sections.push(sec);
                proof {
                    lemma_sec_get_absent(old_secs, section@);
                    assert(sec_g.registers@ =~= Seq::<RegisterSlot>::empty().push(slot_g));
                    assert forall|s: Seq<char>, rg: Seq<char>| #[trigger] self.entry_at(s, rg)
                        == if s == section@ && rg == register@ {
                            Some(entry@)
                        } else {
                            old(self).entry_at(s, rg)
                        } by {
                        lemma_sec_get_push(old_secs, sec_g, s);
                        if s == section@ {
                            lemma_reg_get_push(Seq::<RegisterSlot>::empty(), slot_g, rg);
                        }
                    };
                    assert forall|s: Seq<char>| #[trigger] self.has_section(s) == (s == section@
                        || old(self).has_section(s)) by {
                        lemma_sec_get_push(old_secs, sec_g, s);
                    };
                    assert(self.wf()) by {
                        assert(forall|k: int|
                            0 <= k < old_secs.len() ==> self.sections@[k] == old_secs[k]);
                        assert(self.sections@.last() == sec_g);
                        assert(sec_g.wf());
                    }
                }
                return ;
            },
        };
        proof {
            lemma_sec_get_at(old_secs, si as int, section@);
        }
        let mut sec = self.sections.remove(si);
        let ghost old_regs = sec.registers@;
        let mut j: usize = 0;
        let mut found: bool = false;
        let mut fj: usize = 0;
        while j < sec.registers.len()
            invariant
                j <= sec.registers@.len(),
                sec.registers@ == old_regs,
                !found ==> forall|k: int| 0 <= k < j ==> sec.registers@[k].name@ != register@,
                found ==> fj < j && j <= sec.registers@.len() && sec.registers@[fj as int].name@
                    == register@,
            decreases sec.registers@.len() - j,
        {
            if !found && str_eq(sec.registers[j].name.as_str(), register) {
                found = true;
                fj = j;
            }
            j = j + 1;
        }
        if found {
            let mut slot = sec.registers.remove(fj);
            slot.entry = entry;
            let ghost slot_g = slot;
            sec.registers.insert(fj, slot);
            proof {
                assert(sec.registers@ =~= old_regs.update(fj as int, slot_g));
                lemma_reg_get_update(old_regs, fj as int, slot_g, register@);
            }
        } else {
            let slot = RegisterSlot { name: register.to_owned(), entry };
            sec.registers.push(slot);
        }
        let ghost new_regs = sec.registers@;
        let ghost sec_g = sec;
        self.sections.insert(si, sec);
        proof {
            assert(self.sections@ =~= old_secs.update(si as int, sec_g));
            if found {
                assert forall|k: Seq<char>| #[trigger] reg_get(new_regs, k) == if k == register@ {
                    Some(entry@)
                } else {
                    reg_get(old_regs, k)
                } by {
                    lemma_reg_get_update(old_regs, fj as int, new_regs[fj as int], k);
                };
                assert(regs_distinct(new_regs)) by {
                    assert(forall|k: int|
                        0 <= k < new_regs.len() ==> new_regs[k].name@ == old_regs[k].name@);
                }
                assert(sec_g.wf()) by {
                    assert(forall|k: int|
                        0 <= k < new_regs.len() ==> new_regs[k].name@ == old_regs[k].name@);
                }
            } else {
                assert forall|k: Seq<char>| #[trigger] reg_get(new_regs, k) == if k == register@ {
                    Some(entry@)
                } else {
                    reg_get(old_regs, k)
                } by {
                    lemma_reg_get_push(old_regs, new_regs.last(), k);
                };
                assert(sec_g.wf()) by {
                    assert(forall|k: int|
                        0 <= k < old_regs.len() ==> new_regs[k] == old_regs[k]);
                    assert(forall|k: int|
                        0 <= k < old_regs.len() ==> old_regs[k].name@ != register@);
                }
            }
            assert(self.wf()) by {
                assert(forall|k: int|
                    0 <= k < self.sections@.len() && k != si ==> self.sections@[k]
                        == old_secs[k]);
            }
            assert forall|s: Seq<char>, rg: Seq<char>| #[trigger] self.entry_at(s, rg)
                == if s == section@ && rg == register@ {
                    Some(entry@)
                } else {
                    old(self).entry_at(s, rg)
                } by {
                lemma_sec_get_update(old_secs, si as int, sec_g, s);
            };
            assert forall|s: Seq<char>| #[trigger] self.has_section(s) == (s == section@
                || old(self).has_section(s)) by {
                lemma_sec_get_update(old_secs, si as int, sec_g, s);
                if s == section@ {
                    lemma_sec_get_at(old_secs, si as int, section@);
                }
            };
        }
    }

    /// Removes the register from the section; everything else is untouched.
    /// Returns whether an entry was there to remove.
    pub fn delete_register(&mut self, section: &str, register: &str) -> (removed: bool)
        requires
            old(self).wf(),
        ensures
            final(self).wf(),
            removed == (old(self).entry_at(section@, register@) is Some),
            forall|s: Seq<char>, rg: Seq<char>|
                #[trigger] final(self).entry_at(s, rg) == if s == section@ && rg == register@ {
                    None::<EntrySnap>
                } else {
                    old(self).entry_at(s, rg)
                },
    {
        let ghost old_secs = self.sections@;
        let si = match self.find_section(section) {
            Some(si) => si,
            None => {
                proof {
                    lemma_sec_get_absent(old_secs, section@);
                }
                return false;
            },
        };
        proof {
            lemma_sec_get_at(old_secs, si as int, section@);
        }
        let mut sec = self.sections.remove(si);
        let ghost old_regs = sec.registers@;
        let mut j: usize = 0;
        let mut found: bool = false;
        let mut fj: usize = 0;
        while j < sec.registers.len()
            invariant
                j <= sec.registers@.len(),
                sec.registers@ == old_regs,
                !found ==> forall|k: int| 0 <= k < j ==> sec.registers@[k].name@ != register@,
                found ==> fj < j && j <= sec.registers@.len() && sec.registers@[fj as int].name@
                    == register@,
            decreases sec.registers@.len() - j,
        {
            if !found && str_eq(sec.registers[j].name.as_str(), register) {
                found = true;
                fj = j;
            }
            j = j + 1;
        }
        let removed = found;
        if found {
            let _gone = sec.registers.remove(fj);
            proof {
                lemma_reg_get_at(old_regs, fj as int, register@);
            }
        } else {
            proof {
                lemma_reg_get_absent(old_regs, register@);
            }
        }
        let ghost new_regs = sec.registers@;
        let ghost sec_g = sec;
        self.sections.insert(si, sec);
        proof {
            assert(self.sections@ =~= old_secs.update(si as int, sec_g));
            if found {
                assert forall|k: Seq<char>| #[trigger] reg_get(new_regs, k) == if k == register@ {
                    None::<EntrySnap>
                } else {
                    reg_get(old_regs, k)
                } by {
                    lemma_reg_get_remove(old_regs, fj as int, k);
                };
                assert forall|a: int, b: int| 0 <= a < b < new_regs.len() implies
                    new_regs[a].name@ != new_regs[b].name@ by {
                    let a2: int = if a < fj { a } else { a + 1 };
                    let b2: int = if b < fj { b } else { b + 1 };
                    assert(new_regs[a] == old_regs[a2]);
                    assert(new_regs[b] == old_regs[b2]);
                };
                assert forall|k: int| 0 <= k < new_regs.len() implies
                    new_regs[k].name@.len() > 0 by {
                    let k2: int = if k < fj { k } else { k + 1 };
                    assert(new_regs[k] == old_regs[k2]);
                };
                assert(sec_g.wf());
            }
            assert(self.wf()) by {
                assert(forall|k: int|
                    0 <= k < self.sections@.len() && k != si ==> self.sections@[k]
                        == old_secs[k]);
            }
            assert forall|s: Seq<char>, rg: Seq<char>| #[trigger] self.entry_at(s, rg)
                == if s == section@ && rg == register@ {
                    None::<EntrySnap>
                } else {
                    old(self).entry_at(s, rg)
                } by {
                lemma_sec_get_update(old_secs, si as int, sec_g, s);
            };
        }
        removed
    }

    /// Removes every register under `section` (the section row itself goes
    /// with them); sibling sections, including the relativity bookkeeping
    /// section of the same logical base, are untouched.
    pub fn clear_section(&mut self, section: &str)
        requires
            old(self).wf(),
        ensures
            final(self).wf(),
            forall|rg: Seq<char>| #[trigger] final(self).entry_at(section@, rg) is None,
            !final(self).has_section(section@),
            forall|s: Seq<char>|
                s != section@ ==> #[trigger] final(self).has_section(s)
                    == old(self).has_section(s),
            forall|s: Seq<char>, rg: Seq<char>|
                s != section@ ==> #[trigger] final(self).entry_at(s, rg)
                    == old(self).entry_at(s, rg),
    {
        let ghost old_secs = self.sections@;
        let si = match self.find_section(section) {
            Some(si) => si,
            None => {
                proof {
                    lemma_sec_get_absent(old_secs, section@);
                }
                return ;
            },
        };
        let _gone = self.sections.remove(si);
        proof {
            assert forall|s: Seq<char>| #[trigger]
                sec_regs(self.sections@, s) == if s == old_secs[si as int].name@ {
                    None::<Seq<RegisterSlot>>
                } else {
                    sec_regs(old_secs, s)
                } by {
                lemma_sec_get_remove(old_secs, si as int, s);
            };
            assert(secs_distinct(self.sections@)) by {
                assert forall|a: int, b: int| 0 <= a < b < self.sections@.len() implies
                    self.sections@[a].name@ != self.sections@[b].name@ by {
                    let a2 = if a < si { a } else { a + 1 };
                    let b2 = if b < si { b } else { b + 1 };
                    assert(self.sections@[a] == old_secs[a2]);
                    assert(self.sections@[b] == old_secs[b2]);
                };
            }
            assert(forall|k: int| 0 <= k < self.sections@.len() ==> self.sections@[k].wf()) by {
                assert forall|k: int| 0 <= k < self.sections@.len() implies
                    self.sections@[k].wf() by {
                    let k2 = if k < si { k } else { k + 1 };
                    assert(self.sections@[k] == old_secs[k2]);
                };
            }
        }
    }

    /// The names of the registers of `section`, in insertion order; empty if
    /// the section is absent.
    pub fn register_names(&self, section: &str) -> (r: Vec<String>)
        requires
            self.wf(),
        ensures
            match sec_regs(self.sections@, section@) {
                Some(regs) => r@.len() == regs.len() && forall|i: int|
                    0 <= i < regs.len() ==> r@[i] == regs[i].name,
                None => r@.len() == 0,
            },
    {
        let si = match self.find_section(section) {
            Some(si) => si,
            None => {
                proof {
                    lemma_sec_get_absent(self.sections@, section@);
                }
                return Vec::new();
            },
        };
        proof {
            lemma_sec_get_at(self.sections@, si as int, section@);
        }
        let regs = &self.sections[si].registers;
        let mut r: Vec<String> = Vec::new();
        let mut i: usize = 0;
        while i < regs.len()
            invariant
                i <= regs@.len(),
                si < self.sections@.len(),
                regs@ == self.sections@[si as int].registers@,
                sec_regs(self.sections@, section@) == Some(regs@),
                r@.len() == i,
                forall|j: int| 0 <= j < i ==> r@[j] == regs@[j].name,
            decreases regs@.len() - i,
        {
            r.push(regs[i].name.clone());
            i = i + 1;
        }
        r
    }
}

} // verus!
