//! Aggregate bookkeeping: packages and whole-application counters.

use vstd::prelude::*;

use crate::strutil::clone_strings;
use crate::strutil::lemma_vec_views;
use crate::strutil::lemma_views_push;
use crate::strutil::views_of;

verus! {

/// A package: its name and the names of the files that belong to it.
pub struct Package {
    pub name: String,
    pub members: Vec<String>,
}

/// Mathematical value of a `Package`.
#[verifier::ext_equal]
pub struct PackageV {
    pub name: Seq<char>,
    pub members: Seq<Seq<char>>,
}

impl View for Package {
    type V = PackageV;

    open spec fn view(&self) -> PackageV {
        PackageV { name: self.name@, members: views_of(self.members@) }
    }
}

impl DeepView for Package {
    type V = PackageV;

    open spec fn deep_view(&self) -> PackageV {
        self.view()
    }
}

impl Package {
    /// Appends one class name to the package.
    pub fn add_class(&mut self, class_name: String)
        ensures
            final(self)@ == (PackageV {
                members: old(self)@.members.push(class_name@),
                ..old(self)@
            }),
    {
        let ghost pre = self.members@;
        let ghost v = class_name@;
        self.members.push(class_name);
        proof {
            lemma_views_push(pre, self.members@.last());
            assert(views_of(self.members@) =~= views_of(pre).push(v));
        }
    }

    /// Copies the package field for field.
    pub fn clone(&self) -> (r: Package)
        ensures
            r@ == self@,
    {
        let new_members = clone_strings(&self.members);
        let r = Package { name: self.name.clone(), members: new_members };
        proof {
            lemma_vec_views(&self.members);
            lemma_vec_views(&r.members);
            assert(r@ =~~= self@);
        }
        r
    }
}

/// Counters and package list for a whole documentation run.
pub struct ApplicationDoc {
    pub file_num: i32,
    pub class_num: i32,
    pub interface_num: i32,
    pub enum_num: i32,
    pub packages: Vec<Package>,
}

/// Mathematical value of an `ApplicationDoc`.
#[verifier::ext_equal]
pub struct ApplicationDocV {
    pub file_num: int,
    pub class_num: int,
    pub interface_num: int,
    pub enum_num: int,
    pub packages: Seq<PackageV>,
}

impl View for ApplicationDoc {
    type V = ApplicationDocV;

    open spec fn view(&self) -> ApplicationDocV {
        ApplicationDocV {
            file_num: self.file_num as int,
            class_num: self.class_num as int,
            interface_num: self.interface_num as int,
            enum_num: self.enum_num as int,
            packages: views_of(self.packages@),
        }
    }
}

impl DeepView for ApplicationDoc {
    type V = ApplicationDocV;

    open spec fn deep_view(&self) -> ApplicationDocV {
        self.view()
    }
}

/// The first `k` packages of `ps`, with `class` appended to each of them
/// whose name is `package`; the rest unchanged.
pub open spec fn packages_updated_upto(
    ps: Seq<PackageV>,
    package: Seq<char>,
    class: Seq<char>,
    k: int,
) -> Seq<PackageV> {
    Seq::new(
        ps.len(),
        |j: int|
            if j < k && ps[j].name == package {
                (PackageV { members: ps[j].members.push(class), ..ps[j] })
            } else {
                ps[j]
            },
    )
}

/// The package list after filing `class` under `package`: every package of
/// that name gains the class; when none exists a new one-member package is
/// appended.
pub open spec fn packages_with_class(
    packages: Seq<PackageV>,
    package: Seq<char>,
    class: Seq<char>,
) -> Seq<PackageV> {
    if exists|i: int| 0 <= i < packages.len() && packages[i].name == package {
        packages_updated_upto(packages, package, class, packages.len() as int)
    } else {
        packages.push(PackageV { name: package, members: seq![class] })
    }
}

impl ApplicationDoc {
    /// An application record with zero counts and no packages.
    pub fn new() -> (r: ApplicationDoc)
        ensures
            r@ == (ApplicationDocV {
                file_num: 0,
                class_num: 0,
                interface_num: 0,
                enum_num: 0,
                packages: Seq::empty(),
            }),
    {
        let r = ApplicationDoc {
            file_num: 0,
            enum_num: 0,
            class_num: 0,
            interface_num: 0,
            packages: Vec::new(),
        };
        assert(r@ =~~= (ApplicationDocV {
            file_num: 0,
            class_num: 0,
            interface_num: 0,
            enum_num: 0,
            packages: Seq::empty(),
        }));
        r
    }

    /// Files `class` under `package`, creating the package when it is new.
    pub fn add_package_class(&mut self, package: String, class: String)
        ensures
            final(self)@ == (ApplicationDocV {
                packages: packages_with_class(old(self)@.packages, package@, class@),
                ..old(self)@
            }),
    {
        let ghost pre = self@.packages;
        let mut found = false;
        let mut i: usize = 0;
        while i < self.packages.len()
            invariant
                i <= self.packages@.len(),
                self.packages@.len() == pre.len(),
                self.file_num == old(self).file_num,
                self.class_num == old(self).class_num,
                self.interface_num == old(self).interface_num,
                self.enum_num == old(self).enum_num,
                found == exists|j: int| 0 <= j < i && pre[j].name == package@,
                views_of(self.packages@) == packages_updated_upto(pre, package@, class@, i as int),
            decreases self.packages@.len() - i,
        {
            proof {
                assert(views_of(self.packages@)[i as int] == pre[i as int]);
            }
            if crate::strutil::str_eq(self.packages[i].name.as_str(), package.as_str()) {
                let mut updated = self.packages[i].clone();
                updated.add_class(class.clone());
                let ghost uv = updated@;
                let ghost s = self.packages@;
                self.packages.set(i, updated);
                found = true;
                proof {
                    assert(uv == (PackageV {
                        members: pre[i as int].members.push(class@),
                        ..pre[i as int]
                    }));
                    assert forall|j: int| 0 <= j < pre.len() implies views_of(self.packages@)[j]
                        == packages_updated_upto(pre, package@, class@, i as int + 1)[j] by {
                        assert(views_of(self.packages@)[j] == self.packages@[j].deep_view());
                        if j == i as int {
                            assert(self.packages@[j].deep_view() == uv);
                        } else {
                            assert(self.packages@[j] == s[j]);
                            assert(views_of(s)[j] == s[j].deep_view());
                            assert(views_of(s)[j] == packages_updated_upto(
                                pre,
                                package@,
                                class@,
                                i as int,
                            )[j]);
                        }
                    }
                    assert(views_of(self.packages@) =~= packages_updated_upto(
                        pre,
                        package@,
                        class@,
                        i as int + 1,
                    ));
                }
            } else {
                proof {
                    assert(views_of(self.packages@) =~= packages_updated_upto(
                        pre,
                        package@,
                        class@,
                        i as int + 1,
                    ));
                }
            }
            i += 1;
        }
        if !found {
            let mut members: Vec<String> = Vec::new();
            members.push(class);
            let p = Package { name: package, members };
            let ghost pv = p@;
            let ghost prevec = self.packages@;
            proof {
                assert(views_of(self.packages@) =~= pre);
                assert(pv.members =~= seq![class@]);
            }
            self.packages.push(p);
            proof {
                lemma_views_push(prevec, self.packages@.last());
                assert(views_of(self.packages@) =~= pre.push(
                    PackageV { name: pv.name, members: seq![class@] },
                ));
                assert(packages_with_class(pre, pv.name, class@) == pre.push(
                    PackageV { name: pv.name, members: seq![class@] },
                ));
            }
        } else {
            proof {
                assert(views_of(self.packages@) == packages_with_class(pre, package@, class@));
            }
        }
    }
}

} // verus!
