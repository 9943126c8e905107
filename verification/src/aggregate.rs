//! The composite aggregator: assembling one "full" resource view from
//! several independent sub-fetches, joined fail-fast.
//!
//! A full version is its base record plus the authors and dependencies
//! lookups; a full crate is the base crate lookup, the full detail of one
//! or of every version, and the downloads, owners and reverse-dependency
//! lookups. The sub-fetches carry no ordering constraint among each
//! other, but all of them serialize through the rate-gated transport, so
//! "concurrent" means concurrently pending, not parallel. A join fails as
//! a whole with the first observed sub-error; sibling results are
//! discarded, not cancelled.

use vstd::prelude::*;

use crate::error::Error;
use crate::rdeps::ReverseDependencies;

verus! {

/// One entry of a version's feature table.
#[derive(Debug, Clone)]
pub struct FeatureEntry {
    /// The feature's name.
    pub name: String,
    /// What the feature enables.
    pub enables: Vec<String>,
}

/// One dependency of a version.
#[derive(Debug, Clone)]
pub struct Dependency {
    /// Name of the crate depended on.
    pub crate_name: String,
    /// The requested version range.
    pub req: String,
    /// Whether the dependency is optional.
    pub optional: bool,
}

/// A version of a crate, as the base lookup enumerates them.
#[derive(Debug, Clone)]
pub struct Version {
    pub id: u64,
    /// Name of the crate the version belongs to.
    pub crate_name: String,
    /// The version string.
    pub num: String,
    pub dl_path: String,
    pub created_at: String,
    pub updated_at: String,
    pub downloads: u64,
    pub features: Vec<FeatureEntry>,
    pub yanked: bool,
    pub license: Option<String>,
    pub links: Option<String>,
    pub readme_path: Option<String>,
}

/// A version together with what its two sub-lookups returned.
#[derive(Debug, Clone)]
pub struct FullVersion {
    pub id: u64,
    pub num: String,
    pub dl_path: String,
    pub created_at: String,
    pub updated_at: String,
    pub downloads: u64,
    pub features: Vec<FeatureEntry>,
    pub yanked: bool,
    pub license: Option<String>,
    pub links: Option<String>,
    pub readme_path: Option<String>,
    /// The authors lookup's names.
    pub author_names: Vec<String>,
    /// The dependencies lookup's entries.
    pub dependencies: Vec<Dependency>,
}

/// The scalar fields of the base crate lookup.
#[derive(Debug, Clone)]
pub struct CrateData {
    pub id: String,
    pub name: String,
    pub description: Option<String>,
    pub documentation: Option<String>,
    pub homepage: Option<String>,
    pub repository: Option<String>,
    pub downloads: u64,
    pub max_version: String,
    pub created_at: String,
    pub updated_at: String,
}

/// The base crate lookup: the crate's data and its versions.
#[derive(Debug, Clone)]
pub struct CrateResponse {
    pub crate_data: CrateData,
    /// The crate's versions, newest first as the server returns them.
    pub versions: Vec<Version>,
    pub categories: Vec<String>,
    pub keywords: Vec<String>,
}

/// One day of a crate's download counts.
#[derive(Debug, Clone)]
pub struct DownloadCount {
    pub date: String,
    pub downloads: u64,
}

/// The downloads lookup's result.
#[derive(Debug, Clone)]
pub struct CrateDownloads {
    pub version_downloads: Vec<DownloadCount>,
}

/// One owner of a crate.
#[derive(Debug, Clone)]
pub struct User {
    pub id: u64,
    pub login: String,
    pub name: Option<String>,
}

/// The composite "all details" view of a crate.
#[derive(Debug, Clone)]
pub struct FullCrate {
    pub id: String,
    pub name: String,
    pub description: Option<String>,
    /// The license of the first listed version.
    pub license: Option<String>,
    pub documentation: Option<String>,
    pub homepage: Option<String>,
    pub repository: Option<String>,
    pub total_downloads: u64,
    pub max_version: String,
    pub created_at: String,
    pub updated_at: String,
    pub categories: Vec<String>,
    pub keywords: Vec<String>,
    pub downloads: CrateDownloads,
    pub owners: Vec<User>,
    pub reverse_dependencies: ReverseDependencies,
    /// Full detail of one version or of all of them, in the base
    /// lookup's order.
    pub versions: Vec<FullVersion>,
}

/// The pure combination step of a full version: the version's own fields,
/// with the two sub-lookups' results attached.
pub open spec fn merged_full_version(
    version: Version,
    author_names: Vec<String>,
    dependencies: Vec<Dependency>,
) -> FullVersion {
    FullVersion {
        id: version.id,
        num: version.num,
        dl_path: version.dl_path,
        created_at: version.created_at,
        updated_at: version.updated_at,
        downloads: version.downloads,
        features: version.features,
        yanked: version.yanked,
        license: version.license,
        links: version.links,
        readme_path: version.readme_path,
        author_names,
        dependencies,
    }
}

/// Merge one version with its authors and dependencies lookups.
pub fn merge_full_version(
    version: Version,
    author_names: Vec<String>,
    dependencies: Vec<Dependency>,
) -> (v: FullVersion)
    ensures
        v == merged_full_version(version, author_names, dependencies),
{
    FullVersion {
        id: version.id,
        num: version.num,
        dl_path: version.dl_path,
        created_at: version.created_at,
        updated_at: version.updated_at,
        downloads: version.downloads,
        features: version.features,
        yanked: version.yanked,
        license: version.license,
        links: version.links,
        readme_path: version.readme_path,
        author_names,
        dependencies,
    }
}

/// Join two independent sub-results, fail-fast: both successes make the
/// pair; otherwise the first of the two errors, in the order the results
/// are listed — the order the join observes them — is the whole
/// operation's error, and the sibling result is discarded.
pub fn join2<A, B>(a: Result<A, Error>, b: Result<B, Error>) -> (r: Result<(A, B), Error>)
    ensures
        a matches Ok(x) ==> (b matches Ok(y) ==> r == Ok::<(A, B), Error>((x, y))),
        a matches Err(e) ==> r == Err::<(A, B), Error>(e),
        b matches Err(e) ==> (a is Ok ==> r == Err::<(A, B), Error>(e)),
{
    match a {
        Err(e) => Err(e),
        Ok(x) => match b {
            Err(e) => Err(e),
            Ok(y) => Ok((x, y)),
        },
    }
}

/// Join three independent sub-results, fail-fast, as [`join2`] does two.
pub fn join3<A, B, C>(a: Result<A, Error>, b: Result<B, Error>, c: Result<C, Error>) -> (r: Result<
    (A, B, C),
    Error,
>)
    ensures
        a matches Ok(x) ==> (b matches Ok(y) ==> (c matches Ok(z) ==> r == Ok::<
            (A, B, C),
            Error,
        >((x, y, z)))),
        a matches Err(e) ==> r == Err::<(A, B, C), Error>(e),
        b matches Err(e) ==> (a is Ok ==> r == Err::<(A, B, C), Error>(e)),
        c matches Err(e) ==> (a is Ok && b is Ok ==> r == Err::<(A, B, C), Error>(e)),
{
    match a {
        Err(e) => Err(e),
        Ok(x) => match b {
            Err(e) => Err(e),
            Ok(y) => match c {
                Err(e) => Err(e),
                Ok(z) => Ok((x, y, z)),
            },
        },
    }
}

/// Join any number of independent sub-results, fail-fast: all successes
/// in order, or the first error.
#[verifier::loop_isolation(false)]
pub fn join_all<A>(results: Vec<Result<A, Error>>) -> (r: Result<Vec<A>, Error>)
    ensures
        (forall|i: int| 0 <= i < results@.len() ==> (#[trigger] results@[i]) is Ok) ==> {
            &&& r matches Ok(v)
            &&& v@.len() == results@.len()
            &&& forall|i: int| 0 <= i < v@.len() ==> v@[i] == (#[trigger] results@[i])->Ok_0
        },
        (exists|i: int| 0 <= i < results@.len() && (#[trigger] results@[i]) is Err) ==> {
            &&& r matches Err(e)
            &&& exists|j: int|
                {
                    &&& 0 <= j < results@.len()
                    &&& (#[trigger] results@[j]) is Err
                    &&& e == results@[j]->Err_0
                    &&& forall|k: int| 0 <= k < j ==> results@[k] is Ok
                }
        },
{
    let ghost all = results@;
    let mut rest = results;
    let mut collected: Vec<A> = Vec::new();
    while rest.len() > 0
        invariant
            collected@.len() + rest@.len() == all.len(),
            rest@ == all.subrange(collected@.len() as int, all.len() as int),
            forall|i: int| 0 <= i < collected@.len() ==> (#[trigger] all[i]) is Ok,
            forall|i: int| 0 <= i < collected@.len() ==> collected@[i] == (#[trigger] all[i])->Ok_0,
        decreases rest@.len(),
    {
        let next = rest.remove(0);
        match next {
            Ok(x) => {
                collected.push(x);
            },
            Err(e) => {
                proof {
                    let j = collected@.len() as int;
                    assert((#[trigger] all[j]) is Err);
                    assert(e == all[j]->Err_0);
                    assert(forall|k: int| 0 <= k < j ==> (#[trigger] all[k]) is Ok);
                }
                return Err(e);
            },
        }
    }
    Ok(collected)
}

/// Attach the two sub-lookups of one version, fail-fast: the authors
/// error, if any, is observed first, then the dependencies error; both
/// successes merge into the full version.
pub fn full_version_outcome(
    version: Version,
    author_names: Result<Vec<String>, Error>,
    dependencies: Result<Vec<Dependency>, Error>,
) -> (r: Result<FullVersion, Error>)
    ensures
        author_names matches Ok(a) ==> (dependencies matches Ok(d) ==> r == Ok::<
            FullVersion,
            Error,
        >(merged_full_version(version, a, d))),
        author_names matches Err(e) ==> r == Err::<FullVersion, Error>(e),
        dependencies matches Err(e) ==> (author_names is Ok ==> r == Err::<FullVersion, Error>(e)),
{
    match join2(author_names, dependencies) {
        Ok((a, d)) => Ok(merge_full_version(version, a, d)),
        Err(e) => Err(e),
    }
}

/// Which versions the full-crate fetch details: all of them, in the base
/// lookup's order, or only the first listed one.
pub fn version_indices(version_count: usize, all_versions: bool) -> (idx: Vec<usize>)
    requires
        version_count >= 1,
    ensures
        all_versions ==> idx@.len() == version_count && (forall|i: int|
            0 <= i < idx@.len() ==> idx@[i] == i),
        !all_versions ==> idx@.len() == 1 && idx@[0] == 0,
{
    let mut idx: Vec<usize> = Vec::new();
    if !all_versions {
        idx.push(0);
    } else {
        let mut i: usize = 0;
        while i < version_count
            invariant
                i <= version_count,
                idx@.len() == i,
                forall|k: int| 0 <= k < i ==> idx@[k] == k,
            decreases version_count - i,
        {
            idx.push(i);
            i = i + 1;
        }
    }
    idx
}

/// The pure combination step of a full crate: the base lookup's fields,
/// the first listed version's license, and the sub-lookups' results.
pub open spec fn merged_full_crate(
    base: CrateResponse,
    versions: Vec<FullVersion>,
    downloads: CrateDownloads,
    owners: Vec<User>,
    reverse_dependencies: ReverseDependencies,
) -> FullCrate
    recommends
        base.versions@.len() >= 1,
{
    FullCrate {
        id: base.crate_data.id,
        name: base.crate_data.name,
        description: base.crate_data.description,
        license: base.versions@[0].license,
        documentation: base.crate_data.documentation,
        homepage: base.crate_data.homepage,
        repository: base.crate_data.repository,
        total_downloads: base.crate_data.downloads,
        max_version: base.crate_data.max_version,
        created_at: base.crate_data.created_at,
        updated_at: base.crate_data.updated_at,
        categories: base.categories,
        keywords: base.keywords,
        downloads,
        owners,
        reverse_dependencies,
        versions,
    }
}

/// Merge the base lookup with every sub-result of a full-crate fetch.
/// The base must list at least one version: its first version's license
/// is the composite's license.
pub fn merge_full_crate(
    base: CrateResponse,
    versions: Vec<FullVersion>,
    downloads: CrateDownloads,
    owners: Vec<User>,
    reverse_dependencies: ReverseDependencies,
) -> (c: FullCrate)
    requires
        base.versions@.len() >= 1,
    ensures
        c == merged_full_crate(base, versions, downloads, owners, reverse_dependencies),
{
    let license = match &base.versions[0].license {
        Some(l) => Some(l.clone()),
        None => None,
    };
    let CrateResponse { crate_data, versions: _, categories, keywords } = base;
    FullCrate {
        id: crate_data.id,
        name: crate_data.name,
        description: crate_data.description,
        license,
        documentation: crate_data.documentation,
        homepage: crate_data.homepage,
        repository: crate_data.repository,
        total_downloads: crate_data.downloads,
        max_version: crate_data.max_version,
        created_at: crate_data.created_at,
        updated_at: crate_data.updated_at,
        categories,
        keywords,
        downloads,
        owners,
        reverse_dependencies,
        versions,
    }
}

/// Join every sub-result of a full-crate fetch, fail-fast: the version
/// details are observed first, then downloads, owners and the
/// reverse-dependency accumulation; the first error observed is the whole
/// fetch's error, and only if all succeed is the composite built.
pub fn full_crate_join(
    base: CrateResponse,
    versions: Result<Vec<FullVersion>, Error>,
    downloads: Result<CrateDownloads, Error>,
    owners: Result<Vec<User>, Error>,
    reverse_dependencies: Result<ReverseDependencies, Error>,
) -> (r: Result<FullCrate, Error>)
    requires
        base.versions@.len() >= 1,
    ensures
        versions matches Err(e) ==> r == Err::<FullCrate, Error>(e),
        downloads matches Err(e) ==> (versions is Ok ==> r == Err::<FullCrate, Error>(e)),
        owners matches Err(e) ==> (versions is Ok && downloads is Ok ==> r == Err::<
            FullCrate,
            Error,
        >(e)),
        reverse_dependencies matches Err(e) ==> (versions is Ok && downloads is Ok && owners is Ok
            ==> r == Err::<FullCrate, Error>(e)),
        versions matches Ok(v) ==> (downloads matches Ok(d) ==> (owners matches Ok(o) ==> (
        reverse_dependencies matches Ok(rd) ==> r == Ok::<FullCrate, Error>(
            merged_full_crate(base, v, d, o, rd),
        )))),
{
    match versions {
        Err(e) => Err(e),
        Ok(v) => match join3(downloads, owners, reverse_dependencies) {
            Err(e) => Err(e),
            Ok((d, o, rd)) => Ok(merge_full_crate(base, v, d, o, rd)),
        },
    }
}

/// The request cost a caller selects with the detail flag: one base
/// lookup, two per detailed version, and the three crate-level
/// sub-fetches — the reverse-dependency accumulation counted as one.
pub open spec fn request_cost_spec(version_count: int, all_versions: bool) -> int {
    1 + 2 * (if all_versions {
        version_count
    } else {
        1
    }) + 3
}

/// The number of requests a full-crate fetch issues: 6 in single-version
/// mode, 4 + 2·V with all V versions detailed.
pub fn request_cost(version_count: u64, all_versions: bool) -> (n: u64)
    requires
        version_count >= 1,
        request_cost_spec(version_count as int, all_versions) <= u64::MAX,
    ensures
        n == request_cost_spec(version_count as int, all_versions),
        !all_versions ==> n == 6,
{
    if all_versions {
        1 + 2 * version_count + 3
    } else {
        6
    }
}

} // verus!
