//! Request construction: the immutable project request and the deterministic
//! composition of the service URL from its fields.

use vstd::prelude::*;

use crate::deps::{is_allowed_token, lemma_validate_sound, spec_validate, validate_dependencies};

verus! {

/// The dependency identifiers joined with `,` into a single query value; the
/// empty sequence joins to the empty string.
pub open spec fn spec_join_commas(deps: Seq<Seq<char>>) -> Seq<char>
    decreases deps.len(),
{
    if deps.len() == 0 {
        Seq::empty()
    } else if deps.len() == 1 {
        deps[0]
    } else {
        spec_join_commas(deps.drop_last()) + seq![','] + deps.last()
    }
}

/// Everything of the request URL up to and including the `dependencies=`
/// key: fixed scheme, host, path, the fixed archive type, language and
/// framework version, and the four variable fields taken verbatim.
pub open spec fn spec_url_prefix(name: Seq<char>, package: Seq<char>) -> Seq<char> {
    "https://start.spring.io/starter.zip?type=maven-project&language=java&bootVersion=3.2.0&baseDir="@
        + name + "&artifactId="@ + name + "&name="@ + name + "&packageName="@ + package
        + "&dependencies="@
}

/// The full request URL: the prefix followed by the comma-joined dependency
/// identifiers.
pub open spec fn spec_build_url(name: Seq<char>, package: Seq<char>, deps: Seq<Seq<char>>) -> Seq<
    char,
> {
    spec_url_prefix(name, package) + spec_join_commas(deps)
}

/// Joins the given strings with `,`.
pub fn join_commas(deps: &Vec<String>) -> (r: String)
    ensures
        r@ == spec_join_commas(deps.deep_view()),
{
    let mut out = String::new();
    let mut k: usize = 0;
    proof {
        assert(deps.deep_view().take(0) =~= Seq::<Seq<char>>::empty());
    }
    while k < deps.len()
        invariant
            k <= deps.len(),
            out@ == spec_join_commas(deps.deep_view().take(k as int)),
        decreases deps.len() - k,
    {
        if k > 0 {
            out.append(",");
            proof {
                reveal_strlit(",");
                assert(","@ =~= seq![',']);
            }
        }
        out.append(deps[k].as_str());
        proof {
            let dv = deps.deep_view();
            assert(dv.take(k + 1).drop_last() =~= dv.take(k as int));
            assert(dv.take(k + 1).last() == dv[k as int]);
            assert(out@ =~= spec_join_commas(dv.take(k + 1)));
        }
        k = k + 1;
    }
    proof {
        assert(deps.deep_view().take(deps.len() as int) =~= deps.deep_view());
    }
    out
}

/// Composes the request URL from the project name, the package name and the
/// validated dependency identifiers; pure string composition, with the four
/// variable fields embedded verbatim.
pub fn build_url(name: &str, package: &str, deps: &Vec<String>) -> (r: String)
    ensures
        r@ == spec_build_url(name@, package@, deps.deep_view()),
{
    let mut url = String::from_str(
        "https://start.spring.io/starter.zip?type=maven-project&language=java&bootVersion=3.2.0&baseDir=",
    );
    url.append(name);
    url.append("&artifactId=");
    url.append(name);
    url.append("&name=");
    url.append(name);
    url.append("&packageName=");
    url.append(package);
    url.append("&dependencies=");
    let joined = join_commas(deps);
    url.append(joined.as_str());
    url
}

/// An immutable project request: project name, package name, and the
/// validated dependency set, built once and consumed once.
pub struct ProjectRequest {
    pub name: String,
    pub package: String,
    pub dependencies: Vec<String>,
}

impl ProjectRequest {
    /// Every held dependency identifier is a member of the fixed allow-list.
    pub open spec fn wf(&self) -> bool {
        forall|i: int|
            0 <= i < self.dependencies.deep_view().len() ==> is_allowed_token(
                #[trigger] self.dependencies.deep_view()[i],
            )
    }

    /// Builds a request from the raw inputs: the name and package are taken
    /// as given, the raw dependency string is validated against the
    /// allow-list.
    pub fn new(name: &str, package: &str, raw_dependencies: &str) -> (r: Self)
        ensures
            r.name@ == name@,
            r.package@ == package@,
            r.dependencies.deep_view() == spec_validate(raw_dependencies@),
            r.wf(),
    {
        let dependencies = validate_dependencies(raw_dependencies);
        proof {
            lemma_validate_sound(raw_dependencies@);
        }
        ProjectRequest { name: name.to_owned(), package: package.to_owned(), dependencies }
    }

    /// The request URL for this request.
    pub fn url(&self) -> (r: String)
        ensures
            r@ == spec_build_url(self.name@, self.package@, self.dependencies.deep_view()),
    {
        build_url(self.name.as_str(), self.package.as_str(), &self.dependencies)
    }

    /// The name of the archive file to be written: the project name followed
    /// by `.zip`.
    pub fn archive_file_name(&self) -> (r: String)
        ensures
            r@ == self.name@ + ".zip"@,
    {
        let mut r = self.name.clone();
        r.append(".zip");
        r
    }
}

/// `needle` occurs contiguously somewhere inside `hay`.
pub open spec fn contains_substring(hay: Seq<char>, needle: Seq<char>) -> bool {
    exists|k: int|
        0 <= k <= hay.len() - needle.len() && #[trigger] hay.subrange(k, k + needle.len())
            == needle
}

/// The built URL is well formed: it carries the fixed HTTPS scheme, it
/// contains the project name and the package name verbatim, and its
/// dependency field — the text after the final `&dependencies=` key — equals
/// the comma-join of the validated set.
pub proof fn lemma_url_well_formed(name: Seq<char>, package: Seq<char>, deps: Seq<Seq<char>>)
    ensures
        spec_build_url(name, package, deps).take(8) == "https://"@,
        contains_substring(spec_build_url(name, package, deps), name),
        contains_substring(spec_build_url(name, package, deps), package),
        spec_build_url(name, package, deps) == spec_url_prefix(name, package) + spec_join_commas(
            deps,
        ),
        spec_build_url(name, package, deps).skip(spec_url_prefix(name, package).len() as int)
            == spec_join_commas(deps),
{
    let head =
        "https://start.spring.io/starter.zip?type=maven-project&language=java&bootVersion=3.2.0&baseDir="@;
    let url = spec_build_url(name, package, deps);
    let prefix = spec_url_prefix(name, package);
    reveal_strlit(
        "https://start.spring.io/starter.zip?type=maven-project&language=java&bootVersion=3.2.0&baseDir=",
    );
    reveal_strlit("https://");
    assert(head.len() == 95);
    assert(url.take(8) =~= "https://"@);
    let kn = head.len() as int;
    assert(url.subrange(kn, kn + name.len()) =~= name);
    assert(contains_substring(url, name));
    let kp = (head.len() + name.len() + "&artifactId="@.len() + name.len() + "&name="@.len()
        + name.len() + "&packageName="@.len()) as int;
    assert(url.subrange(kp, kp + package.len()) =~= package);
    assert(contains_substring(url, package));
    assert(url.skip(prefix.len() as int) =~= spec_join_commas(deps));
}

} // verus!
