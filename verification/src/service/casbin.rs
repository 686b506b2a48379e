use vstd::prelude::*;

use crate::strutil::str_eq;

verus! {

/// One resource together with the actions a role may take on it.
#[derive(Clone, Debug)]
pub struct PermissionEntry {
    pub resource: String,
    pub actions: Vec<String>,
}

/// The role-based access control policy: the rule rows loaded from the policy
/// source at process start, each conceptually `[subject, action, resource]`.
/// The rows are read-only once loaded; resolution never mutates them.
pub struct CasbinService {
    pub rules: Vec<Vec<String>>,
}

/// The permission map a role resolves to: walking the rules in order, every
/// rule whose subject is the role and which carries both an action and a
/// resource appends its action to its resource's list; shorter (malformed)
/// rows are skipped rather than failing resolution.
pub open spec fn spec_role_permissions(
    rules: Seq<Seq<Seq<char>>>,
    role: Seq<char>,
) -> Map<Seq<char>, Seq<Seq<char>>>
    decreases rules.len(),
{
    if rules.len() == 0 {
        Map::empty()
    } else {
        let m = spec_role_permissions(rules.drop_last(), role);
        let rule = rules.last();
        if rule.len() >= 3 && rule[0] == role {
            if m.contains_key(rule[2]) {
                m.insert(rule[2], m[rule[2]].push(rule[1]))
            } else {
                m.insert(rule[2], seq![rule[1]])
            }
        } else {
            m
        }
    }
}

/// What it means for a list of entries to represent exactly the permission
/// map of `role` under `rules`: resources are unique, every entry carries its
/// resource's action list from the map, and every resource of the map has an
/// entry.
pub open spec fn is_permissions_for(
    entries: Seq<PermissionEntry>,
    rules: Seq<Seq<Seq<char>>>,
    role: Seq<char>,
) -> bool {
    let m = spec_role_permissions(rules, role);
    &&& forall|p: int, q: int|
        0 <= p < q < entries.len() ==> entries[p].resource@ != entries[q].resource@
    &&& forall|p: int|
        #![trigger entries[p]]
        0 <= p < entries.len() ==> m.contains_key(entries[p].resource@) && m[entries[p].resource@]
            == entries[p].actions.deep_view()
    &&& forall|res: Seq<char>|
        #[trigger] m.contains_key(res) ==> exists|p: int|
            #![trigger entries[p]]
            0 <= p < entries.len() && entries[p].resource@ == res
}

/// A role that no rule names as its subject resolves to the empty permission
/// map — an empty or unknown role is an empty result, not an error.
pub proof fn lemma_unmentioned_role_has_no_permissions(
    rules: Seq<Seq<Seq<char>>>,
    role: Seq<char>,
)
    requires
        forall|i: int| 0 <= i < rules.len() ==> (#[trigger] rules[i]).len() == 0 || rules[i][0]
            != role,
    ensures
        spec_role_permissions(rules, role) == Map::<Seq<char>, Seq<Seq<char>>>::empty(),
    decreases rules.len(),
{
    if rules.len() > 0 {
        lemma_unmentioned_role_has_no_permissions(rules.drop_last(), role);
    }
}

proof fn lemma_role_permissions_step(rules: Seq<Seq<Seq<char>>>, role: Seq<char>, i: int)
    requires
        0 <= i < rules.len(),
    ensures
        spec_role_permissions(rules.take(i + 1), role) == ({
            let m = spec_role_permissions(rules.take(i), role);
            let rule = rules[i];
            if rule.len() >= 3 && rule[0] == role {
                if m.contains_key(rule[2]) {
                    m.insert(rule[2], m[rule[2]].push(rule[1]))
                } else {
                    m.insert(rule[2], seq![rule[1]])
                }
            } else {
                m
            }
        }),
{
    assert(rules.take(i + 1).drop_last() =~= rules.take(i));
    assert(rules.take(i + 1).last() == rules[i]);
}

impl CasbinService {
    /// Resolves a role into its full permission set, one entry per resource.
    /// A role with no matching rules resolves to the empty list, not an error.
    pub fn get_permissions_for_role(&self, role: &str) -> (r: Vec<PermissionEntry>)
        ensures
            is_permissions_for(r@, self.rules.deep_view(), role@),
    {
        let ghost rules_v = self.rules.deep_view();
        let mut result: Vec<PermissionEntry> = Vec::new();
        let n = self.rules.len();
        proof {
            assert(rules_v.take(0) =~= Seq::<Seq<Seq<char>>>::empty());
        }
        let mut idx: usize = 0;
        while idx < n
            invariant
                idx <= n,
                n == self.rules.len(),
                rules_v == self.rules.deep_view(),
                rules_v.len() == n,
                is_permissions_for(result@, rules_v.take(idx as int), role@),
            decreases n - idx,
        {
            let ghost m = spec_role_permissions(rules_v.take(idx as int), role@);
            let ghost old_entries = result@;
            let rule = &self.rules[idx];
            proof {
                assert(rules_v[idx as int] == self.rules@[idx as int].deep_view());
                lemma_role_permissions_step(rules_v, role@, idx as int);
            }
            if rule.len() >= 3 && str_eq(rule[0].as_str(), role) {
                proof {
                    assert(rules_v[idx as int][0] == rule@[0]@);
                    assert(rules_v[idx as int][1] == rule@[1]@);
                    assert(rules_v[idx as int][2] == rule@[2]@);
                }
                let action = rule[1].clone();
                let resource = &rule[2];
                let m_len = result.len();
                let mut j: usize = 0;
                while j < m_len && !str_eq(result[j].resource.as_str(), resource.as_str())
                    invariant
                        j <= m_len,
                        m_len == result.len(),
                        result@ == old_entries,
                        forall|k: int|
                            #![trigger old_entries[k]]
                            0 <= k < j ==> old_entries[k].resource@ != resource@,
                    decreases m_len - j,
                {
                    j = j + 1;
                }
                if j < m_len {
                    let mut entry = result.remove(j);
                    let ghost old_actions = entry.actions.deep_view();
                    entry.actions.push(action);
                    proof {
                        assert(entry.actions.deep_view() =~= old_actions.push(
                            rules_v[idx as int][1],
                        ));
                    }
                    result.insert(j, entry);
                    proof {
                        let res = rules_v[idx as int][2];
                        assert(old_entries[j as int].resource@ == res);
                        assert(m.contains_key(res));
                        assert(result@ =~= old_entries.update(
                            j as int,
                            PermissionEntry {
                                resource: old_entries[j as int].resource,
                                actions: entry.actions,
                            },
                        ));
                        let m2 = spec_role_permissions(rules_v.take(idx as int + 1), role@);
                        assert(m2 == m.insert(res, m[res].push(rules_v[idx as int][1])));
                        assert forall|res2: Seq<char>| #[trigger] m2.contains_key(res2) implies exists|p: int|
                            #![trigger result@[p]]
                            0 <= p < result@.len() && result@[p].resource@ == res2 by {
                            assert(m.contains_key(res2));
                            let p0 = choose|p: int|
                                #![trigger old_entries[p]]
                                0 <= p < old_entries.len() && old_entries[p].resource@ == res2;
                            assert(result@[p0].resource@ == res2);
                        }
                        assert(is_permissions_for(result@, rules_v.take(idx as int + 1), role@));
                    }
                } else {
                    let mut actions: Vec<String> = Vec::new();
                    actions.push(action);
                    let entry = PermissionEntry { resource: resource.clone(), actions };
                    result.push(entry);
                    proof {
                        let res = rules_v[idx as int][2];
                        assert(forall|k: int|
                            #![trigger old_entries[k]]
                            0 <= k < old_entries.len() ==> old_entries[k].resource@ != res);
                        assert(!m.contains_key(res));
                        assert(result@.last().actions.deep_view() =~= seq![
                            rules_v[idx as int][1],
                        ]);
                        let m2 = spec_role_permissions(rules_v.take(idx as int + 1), role@);
                        assert(m2 == m.insert(res, seq![rules_v[idx as int][1]]));
                        assert forall|res2: Seq<char>| #[trigger] m2.contains_key(res2) implies exists|p: int|
                            #![trigger result@[p]]
                            0 <= p < result@.len() && result@[p].resource@ == res2 by {
                            if res2 == res {
                                assert(result@[result@.len() - 1].resource@ == res2);
                            } else {
                                assert(m.contains_key(res2));
                                let p0 = choose|p: int|
                                    #![trigger old_entries[p]]
                                    0 <= p < old_entries.len() && old_entries[p].resource@
                                        == res2;
                                assert(result@[p0].resource@ == res2);
                            }
                        }
                        assert(is_permissions_for(result@, rules_v.take(idx as int + 1), role@));
                    }
                }
            } else {
                proof {
                    let rv = rules_v[idx as int];
                    if rv.len() >= 3 {
                        assert(rv.len() == rule@.len());
                        assert(rv[0] == rule@[0]@);
                    }
                    assert(spec_role_permissions(rules_v.take(idx as int + 1), role@) == m);
                }
            }
            idx = idx + 1;
        }
        proof {
            assert(rules_v.take(n as int) =~= rules_v);
        }
        result
    }
}

} // verus!
