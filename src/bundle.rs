//! Bundling: which package formats are built, in which order, and what each one produced.
//!
//! Each format's own packaging is done by a `Bundler`; the formats that repackage earlier
//! output (disk images, updater archives) are handed the bundles built before them.

use crate::error::Error;
use vstd::prelude::*;

verus! {

/// A package format.
#[derive(Debug, Clone, Copy, PartialEq, Eq, Structural)]
pub enum PackageType {
    MacOsBundle,
    IosBundle,
    WindowsMsi,
    Deb,
    Rpm,
    AppImage,
    Dmg,
    Updater,
}

/// What the bundler is asked to build.
pub struct Settings {
    /// The formats to build, in order.
    pub package_types: Vec<PackageType>,
    /// The icon files of the application.
    pub icon_files: Vec<String>,
    /// Where the bundles are written.
    pub out_dir: String,
}

/// The output of one package format.
pub struct Bundle {
    /// The package type.
    pub package_type: PackageType,
    /// All paths of this package.
    pub bundle_paths: Vec<String>,
}

/// The packaging work of each format, and the copying around it.
pub trait Bundler {
    /// Builds one package; `previous` holds the bundles built before it.
    fn bundle(
        &mut self,
        package_type: PackageType,
        settings: &Settings,
        previous: &Vec<Bundle>,
    ) -> Result<Vec<String>, Error>;

    /// Copies the application's resources next to the bundles.
    fn copy_resources(&mut self, settings: &Settings) -> Result<(), Error>;

    /// Copies the application's extra binaries next to the bundles.
    fn copy_binaries(&mut self, settings: &Settings) -> Result<(), Error>;

    /// Reports the finished bundles.
    fn finished(&mut self, bundles: &Vec<Bundle>) -> Result<(), Error>;
}

/// The package types of a sequence of bundles.
pub open spec fn types_of(bundles: Seq<Bundle>) -> Seq<PackageType> {
    bundles.map_values(|b: Bundle| b.package_type)
}

/// Records one package type's outcome: its paths become a bundle after the earlier ones,
/// and a failure is passed on with the bundles left as they were.
pub fn record_bundle(
    bundles: &mut Vec<Bundle>,
    package_type: PackageType,
    outcome: Result<Vec<String>, Error>,
) -> (r: Result<(), Error>)
    ensures
        outcome matches Ok(paths) ==> r is Ok && final(bundles)@ == old(bundles)@.push(
            Bundle { package_type, bundle_paths: paths },
        ),
        outcome matches Err(e) ==> r == Err::<(), Error>(e) && final(bundles)@ == old(bundles)@,
{
    match outcome {
        Ok(bundle_paths) => {
            bundles.push(Bundle { package_type, bundle_paths });
            Ok(())
        },
        Err(e) => Err(e),
    }
}

/// Builds every package type of `settings` in order, then copies resources and binaries.
/// Returns one bundle per package type, in the same order; stops at the first failure.
pub fn bundle_project<B: Bundler>(settings: &Settings, bundler: &mut B) -> (r: Result<Vec<Bundle>, Error>)
    ensures
        r matches Ok(bundles) ==> types_of(bundles@) == settings.package_types@,
{
    let mut bundles: Vec<Bundle> = Vec::new();
    let mut i: usize = 0;
    while i < settings.package_types.len()
        invariant
            0 <= i <= settings.package_types@.len(),
            types_of(bundles@) == settings.package_types@.take(i as int),
        decreases settings.package_types@.len() - i,
    {
        let package_type = settings.package_types[i];
        let ghost before = bundles@;
        let outcome = bundler.bundle(package_type, settings, &bundles);
        record_bundle(&mut bundles, package_type, outcome)?;
        proof {
            assert(types_of(bundles@) =~= types_of(before).push(package_type));
            assert(settings.package_types@.take(i + 1) =~= settings.package_types@.take(i as int).push(
                package_type,
            ));
        }
        i = i + 1;
    }
    proof {
        assert(settings.package_types@.take(settings.package_types@.len() as int)
            =~= settings.package_types@);
    }
    bundler.copy_resources(settings)?;
    bundler.copy_binaries(settings)?;
    bundler.finished(&bundles)?;
    Ok(bundles)
}

/// Whether the settings name any icon file.
pub fn check_icons(settings: &Settings) -> (r: Result<bool, Error>)
    ensures
        r == Ok::<bool, Error>(settings.icon_files@.len() > 0),
{
    Ok(settings.icon_files.len() > 0)
}

} // verus!
