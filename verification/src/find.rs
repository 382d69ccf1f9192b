//! Finding a package by name, and telling a name that is merely similar to a
//! package's from one that no package has.

use vstd::prelude::*;
use vstd::string::StringExecFns;
use crate::error::{Error, ErrorView};
use crate::metadata::{Package, PackageView, package_views};
use crate::text::{first_match, last_match, lemma_first_match, lemma_last_match, texts};

verus! {

/// The form of a name in which case and punctuation do not count: what
/// `heck::ToShoutyKebabCase::to_shouty_kebab_case` makes of the text.
pub uninterp spec fn shouty_kebab_case(name: Seq<char>) -> Seq<char>;

/// Calls `heck::ToShoutyKebabCase::to_shouty_kebab_case` on the string, which
/// writes its words in upper case with hyphens between them and depends on the
/// text alone. The contract only gives that result its name.
#[verifier::external_body]
pub(crate) fn to_shouty_kebab_case(name: &str) -> (r: String)
    ensures
        r@ == shouty_kebab_case(name@),
{
    heck::ToShoutyKebabCase::to_shouty_kebab_case(name)
}

/// The names of the packages, in the order of the packages.
pub open spec fn package_names(packages: Seq<PackageView>) -> Seq<Seq<char>> {
    Seq::new(packages.len(), |i: int| packages[i].name)
}

/// The forms that belong to packages: `forms[i]` is the form of the name of
/// `packages[i]`; a form without a package is left out.
pub open spec fn forms_of(packages: Seq<PackageView>, forms: Seq<Seq<char>>) -> Seq<Seq<char>> {
    if forms.len() <= packages.len() {
        forms
    } else {
        forms.take(packages.len() as int)
    }
}

/// The package found for `name`, whose form is `form`, among packages whose
/// names have the forms `forms`: the first package named `name`; where there is
/// none, a failure that names the last package whose form is `form`; where there
/// is none either, nothing.
pub open spec fn pick(
    packages: Seq<PackageView>,
    forms: Seq<Seq<char>>,
    name: Seq<char>,
    form: Seq<char>,
) -> Result<Option<PackageView>, ErrorView> {
    match first_match(package_names(packages), name) {
        Some(i) => Ok(Some(packages[i])),
        None => match last_match(forms_of(packages, forms), form) {
            Some(j) => Err(ErrorView::SimilarPackage { name, similar: packages[j].name }),
            None => Ok(None),
        },
    }
}

/// The view of a package found, of nothing found, or of the error.
pub open spec fn found_view(r: Result<Option<&Package>, Error>) -> Result<
    Option<PackageView>,
    ErrorView,
> {
    match r {
        Ok(Some(p)) => Ok(Some(p@)),
        Ok(None) => Ok(None),
        Err(e) => Err(e@),
    }
}

/// Finds the package named `name` among `packages`, given the forms of their
/// names and the form of `name`.
pub fn pick_package<'a>(
    packages: &'a Vec<Package>,
    forms: &Vec<String>,
    name: &str,
    form: &str,
) -> (r: Result<Option<&'a Package>, Error>)
    ensures
        found_view(r) == pick(package_views(packages@), texts(forms@), name@, form@),
{
    let ghost pv = package_views(packages@);
    let ghost names = package_names(pv);
    let wanted = String::from_str(name);
    let wanted_form = String::from_str(form);
    let mut i: usize = 0;
    while i < packages.len()
        invariant
            i <= packages.len(),
            pv == package_views(packages@),
            names == package_names(pv),
            wanted@ == name@,
            forall|j: int| 0 <= j < i ==> names[j] != name@,
        decreases packages.len() - i,
    {
        if packages[i].name == wanted {
            proof {
                assert(names[i as int] == name@);
                lemma_first_match(names, name@);
            }
            return Ok(Some(&packages[i]));
        }
        i += 1;
    }
    proof {
        lemma_first_match(names, name@);
    }
    let ghost fs = forms_of(pv, texts(forms@));
    let mut j: usize = if forms.len() <= packages.len() {
        forms.len()
    } else {
        packages.len()
    };
    while j > 0
        invariant
            j <= forms.len(),
            j <= packages.len(),
            pv == package_views(packages@),
            names == package_names(pv),
            fs == forms_of(pv, texts(forms@)),
            wanted@ == name@,
            wanted_form@ == form@,
            first_match(names, name@) is None,
            forall|k: int| j <= k < fs.len() ==> fs[k] != form@,
        decreases j,
    {
        j -= 1;
        if forms[j] == wanted_form {
            proof {
                assert(fs[j as int] == form@);
                lemma_last_match(fs, form@);
            }
            return Err(Error::SimilarPackage { name: wanted, similar: packages[j].name.clone() });
        }
    }
    proof {
        lemma_last_match(fs, form@);
    }
    Ok(None)
}

/// The forms of the names of the packages, in the order of the packages.
pub open spec fn package_forms(packages: Seq<PackageView>) -> Seq<Seq<char>> {
    Seq::new(packages.len(), |i: int| shouty_kebab_case(packages[i].name))
}

/// The package found for `name` among `packages`: the first package named
/// `name`; where there is none, a failure that names the last package whose
/// name has the same form as `name`; where there is none either, nothing.
pub open spec fn find(packages: Seq<PackageView>, name: Seq<char>) -> Result<
    Option<PackageView>,
    ErrorView,
> {
    pick(packages, package_forms(packages), name, shouty_kebab_case(name))
}

/// Finds the package named `name` among `packages`.
pub fn find_in<'a>(packages: &'a Vec<Package>, name: &str) -> (r: Result<
    Option<&'a Package>,
    Error,
>)
    ensures
        found_view(r) == find(package_views(packages@), name@),
{
    let mut forms: Vec<String> = Vec::new();
    let mut i: usize = 0;
    while i < packages.len()
        invariant
            i <= packages.len(),
            forms.len() == i,
            forall|j: int| 0 <= j < i ==> forms@[j]@ == shouty_kebab_case(packages@[j]@.name),
        decreases packages.len() - i,
    {
        forms.push(to_shouty_kebab_case(packages[i].name.as_str()));
        i += 1;
    }
    assert(texts(forms@) =~= package_forms(package_views(packages@)));
    let form = to_shouty_kebab_case(name);
    pick_package(packages, &forms, name, form.as_str())
}

/// Whether a package is named `name`.
pub open spec fn has_exact(packages: Seq<PackageView>, name: Seq<char>) -> bool {
    exists|i: int| 0 <= i < packages.len() && packages[i].name == name
}

/// Whether `packages[j]` is a package whose name has the same form as `name`.
pub open spec fn is_similar(packages: Seq<PackageView>, name: Seq<char>, j: int) -> bool {
    0 <= j < packages.len() && shouty_kebab_case(packages[j].name) == shouty_kebab_case(name)
}

/// What a search answers, case by case. Where a package is named `name`,
/// the search finds the first such package. Where none is, but the name of a
/// package has the same form as `name`, the search fails and names such a
/// package. Where neither holds, the search finds nothing and does not fail.
pub proof fn find_tells_exact_from_similar(packages: Seq<PackageView>, name: Seq<char>)
    ensures
        has_exact(packages, name) ==> (find(packages, name) matches Ok(Some(p)) && p.name == name
            && packages.contains(p)),
        !has_exact(packages, name) && (exists|j: int| is_similar(packages, name, j)) ==> (find(
            packages,
            name,
        ) matches Err(ErrorView::SimilarPackage { name: asked, similar }) && asked == name
            && exists|j: int| is_similar(packages, name, j) && packages[j].name == similar),
        !has_exact(packages, name) && !(exists|j: int| is_similar(packages, name, j)) ==> find(
            packages,
            name,
        ) == Ok::<Option<PackageView>, ErrorView>(None),
{
    let names = package_names(packages);
    let forms = package_forms(packages);
    lemma_first_match(names, name);
    lemma_last_match(forms, shouty_kebab_case(name));
    if first_match(names, name) is None {
        assert forall|i: int| 0 <= i < packages.len() implies packages[i].name != name by {
            assert(names[i] == packages[i].name);
        }
        match last_match(forms, shouty_kebab_case(name)) {
            Some(j) => {
                assert(is_similar(packages, name, j));
            },
            None => {
                assert forall|j: int| !is_similar(packages, name, j) by {
                    if 0 <= j < packages.len() {
                        assert(forms[j] == shouty_kebab_case(packages[j].name));
                    }
                }
            },
        }
    } else {
        let i = first_match(names, name)->0;
        assert(packages[i].name == name);
    }
}

/// Where no package is named `name` and exactly one package has a name of
/// the same form, the search fails and names that package.
pub proof fn find_names_the_only_similar_package(
    packages: Seq<PackageView>,
    name: Seq<char>,
    j: int,
)
    requires
        !has_exact(packages, name),
        is_similar(packages, name, j),
        forall|k: int| is_similar(packages, name, k) ==> k == j,
    ensures
        find(packages, name) == Err::<Option<PackageView>, ErrorView>(
            ErrorView::SimilarPackage { name, similar: packages[j].name },
        ),
{
    find_tells_exact_from_similar(packages, name);
}

} // verus!
