//! Manifests of apps made of several services: what the daemon reads from their compose
//! description, held as the plain values it reads.
use crate::text::{chars_eq_str, chars_of_string, concat_chars, string_of};
use vstd::prelude::*;

verus! {

/// Why a compose description cannot be used.
#[derive(Debug, Clone, Copy, PartialEq, Eq, Structural)]
pub enum ComposeValidationError {
    /// The description declares a network named `flecs`, which the daemon keeps for itself.
    FlecsNetworkReserved,
}

/// Whether a network name is the one the daemon keeps for itself.
pub open spec fn is_reserved_network(name: Seq<char>) -> bool {
    name == seq!['f', 'l', 'e', 'c', 's']
}

/// Checks the networks a compose description declares.
pub fn validate_compose(network_names: &Vec<String>) -> (res: Result<(), ComposeValidationError>)
    ensures
        res is Ok <==> forall|i: int|
            0 <= i < network_names@.len() ==> !is_reserved_network(#[trigger] network_names@[i]@),
{
    proof {
        reveal_strlit("flecs");
    }
    assert("flecs"@ =~= seq!['f', 'l', 'e', 'c', 's']);
    let mut i: usize = 0;
    while i < network_names.len()
        invariant
            i <= network_names@.len(),
            "flecs"@ == seq!['f', 'l', 'e', 'c', 's'],
            forall|k: int| 0 <= k < i ==> !is_reserved_network(#[trigger] network_names@[k]@),
        decreases network_names@.len() - i,
    {
        if chars_eq_str(&chars_of_string(&network_names[i]), "flecs") {
            return Err(ComposeValidationError::FlecsNetworkReserved);
        }
        i = i + 1;
    }
    Ok(())
}

/// A service and its image, also without the repository.
#[derive(Debug, Clone, PartialEq, Eq)]
pub struct ServiceWithImageInfo {
    pub name: String,
    pub image: String,
    pub image_with_repo: String,
}

/// An image without its repository: what follows the first `/`, or the whole image.
pub open spec fn image_without_repo(image: Seq<char>) -> Seq<char> {
    if image.contains('/') {
        image.skip(crate::text::first_index_of(image, '/') as int + 1)
    } else {
        image
    }
}

/// The image of a service, with and without its repository.
pub fn service_with_image_info(name: &String, image: &String) -> (res: ServiceWithImageInfo)
    ensures
        res.name == *name,
        res.image_with_repo == *image,
        res.image@ == image_without_repo(image@),
{
    let chars = chars_of_string(image);
    let at = crate::text::find_char(&chars, '/');
    proof {
        crate::text::lemma_first_index_of(image@, '/');
    }
    let short = if at < chars.len() {
        crate::text::subrange_chars(&chars, at + 1, chars.len())
    } else {
        crate::text::subrange_chars(&chars, 0, chars.len())
    };
    assert(short@ =~= image_without_repo(image@));
    ServiceWithImageInfo { name: name.clone(), image: string_of(&short), image_with_repo: image.clone() }
}

/// The services of a list that name an image, with their images, in order.
pub open spec fn imaged_services(services: Seq<(String, Option<String>)>) -> Seq<(String, String)>
    decreases services.len(),
{
    if services.len() == 0 {
        Seq::empty()
    } else {
        let rest = imaged_services(services.drop_last());
        match services.last().1 {
            Some(image) => rest.push((services.last().0, image)),
            None => rest,
        }
    }
}

/// The services that name an image, each with its image info, in order.
pub fn services_with_image_info(services: &Vec<(String, Option<String>)>) -> (res: Vec<
    ServiceWithImageInfo,
>)
    ensures
        res@.len() == imaged_services(services@).len(),
        forall|k: int|
            0 <= k < res@.len() ==> {
                let s = #[trigger] imaged_services(services@)[k];
                &&& res@[k].name == s.0
                &&& res@[k].image_with_repo == s.1
                &&& res@[k].image@ == image_without_repo(s.1@)
            },
{
    let mut res: Vec<ServiceWithImageInfo> = Vec::new();
    let mut i: usize = 0;
    while i < services.len()
        invariant
            i <= services@.len(),
            res@.len() == imaged_services(services@.take(i as int)).len(),
            forall|k: int|
                0 <= k < res@.len() ==> {
                    let s = #[trigger] imaged_services(services@.take(i as int))[k];
                    &&& res@[k].name == s.0
                    &&& res@[k].image_with_repo == s.1
                    &&& res@[k].image@ == image_without_repo(s.1@)
                },
        decreases services@.len() - i,
    {
        assert(services@.take(i + 1).drop_last() =~= services@.take(i as int));
        match &services[i].1 {
            Some(image) => {
                res.push(service_with_image_info(&services[i].0, image));
            },
            None => {},
        }
        i = i + 1;
    }
    assert(services@.take(i as int) =~= services@);
    res
}

/// The images the services name, in order.
pub fn images(services: &Vec<(String, Option<String>)>) -> (res: Vec<String>)
    ensures
        res@.len() == imaged_services(services@).len(),
        forall|k: int| 0 <= k < res@.len() ==> #[trigger] res@[k] == imaged_services(services@)[k].1,
{
    let mut res: Vec<String> = Vec::new();
    let mut i: usize = 0;
    while i < services.len()
        invariant
            i <= services@.len(),
            res@.len() == imaged_services(services@.take(i as int)).len(),
            forall|k: int|
                0 <= k < res@.len() ==> #[trigger] res@[k] == imaged_services(services@.take(i as int))[k].1,
        decreases services@.len() - i,
    {
        assert(services@.take(i + 1).drop_last() =~= services@.take(i as int));
        match &services[i].1 {
            Some(image) => {
                res.push(image.clone());
            },
            None => {},
        }
        i = i + 1;
    }
    assert(services@.take(i as int) =~= services@);
    res
}

/// The name of the compose project of an app: its name with `-` for every `.`.
pub open spec fn project_name_spec(app_name: Seq<char>) -> Seq<char> {
    Seq::new(app_name.len(), |i: int| if app_name[i] == '.' { '-' } else { app_name[i] })
}

/// The name of the compose project of the app named `app_name`.
pub fn project_name(app_name: &String) -> (res: String)
    ensures
        res@ == project_name_spec(app_name@),
{
    let chars = chars_of_string(app_name);
    let mut out: Vec<char> = Vec::new();
    let mut i: usize = 0;
    while i < chars.len()
        invariant
            i <= chars@.len(),
            chars@ == app_name@,
            out@ =~= project_name_spec(app_name@).take(i as int),
        decreases chars@.len() - i,
    {
        if chars[i] == '.' {
            out.push('-');
        } else {
            out.push(chars[i]);
        }
        i = i + 1;
    }
    string_of(&out)
}

/// How a volume of a compose description is external.
#[derive(Debug, Clone, PartialEq, Eq)]
pub enum ExternalVolume {
    /// Whether the volume is external, under its own name.
    Bool(bool),
    /// The volume is external under the given name (the older notation).
    Name(String),
}

/// The settings of a volume that decide its name.
#[derive(Debug, Clone, PartialEq, Eq)]
pub struct ComposeVolume {
    pub name: Option<String>,
    pub external: Option<ExternalVolume>,
}

/// The name of the volume `volume_name` of a project: the name it is given, else its own
/// name where it is external, else the external name, else the project name, `_` and its
/// own name.
pub open spec fn volume_name_spec(
    project_name: Seq<char>,
    volume_name: Seq<char>,
    volume: Option<ComposeVolume>,
) -> Seq<char> {
    match volume {
        Some(v) => match v.name {
            Some(n) => n@,
            None => match v.external {
                Some(ExternalVolume::Bool(true)) => volume_name,
                Some(ExternalVolume::Name(n)) => n@,
                _ => project_name + seq!['_'] + volume_name,
            },
        },
        None => project_name + seq!['_'] + volume_name,
    }
}

/// The name under which a volume of the project exists.
pub fn volume_name_from_map_entry(
    project_name: &String,
    volume_name: &String,
    volume: &Option<ComposeVolume>,
) -> (res: String)
    ensures
        res@ == volume_name_spec(project_name@, volume_name@, *volume),
{
    match volume {
        Some(ComposeVolume { name: Some(n), .. }) => n.clone(),
        Some(ComposeVolume { name: None, external: Some(ExternalVolume::Bool(true)) }) => volume_name.clone(),
        Some(ComposeVolume { name: None, external: Some(ExternalVolume::Name(n)) }) => n.clone(),
        _ => {
            let mut prefix = chars_of_string(project_name);
            prefix.push('_');
            string_of(&concat_chars(&prefix, &chars_of_string(volume_name)))
        },
    }
}

/// The names of all volumes of the project, in order.
pub fn volume_names(project_name: &String, volumes: &Vec<(String, Option<ComposeVolume>)>) -> (res: Vec<
    String,
>)
    ensures
        res@.len() == volumes@.len(),
        forall|k: int|
            0 <= k < volumes@.len() ==> (#[trigger] res@[k])@ == volume_name_spec(
                project_name@,
                volumes@[k].0@,
                volumes@[k].1,
            ),
{
    let mut res: Vec<String> = Vec::new();
    let mut i: usize = 0;
    while i < volumes.len()
        invariant
            i <= volumes@.len(),
            res@.len() == i,
            forall|k: int|
                0 <= k < i ==> (#[trigger] res@[k])@ == volume_name_spec(
                    project_name@,
                    volumes@[k].0@,
                    volumes@[k].1,
                ),
        decreases volumes@.len() - i,
    {
        res.push(volume_name_from_map_entry(project_name, &volumes[i].0, &volumes[i].1));
        i = i + 1;
    }
    res
}

/// The external name of a volume, where it is external.
pub open spec fn external_name(volume_name: Seq<char>, volume: Option<ComposeVolume>) -> Option<
    Seq<char>,
> {
    match volume {
        Some(v) => match v.external {
            Some(ExternalVolume::Bool(true)) => Some(volume_name),
            Some(ExternalVolume::Name(n)) => Some(n@),
            _ => None,
        },
        None => None,
    }
}

/// The names of the external volumes of a compose description, in order.
pub open spec fn external_names(volumes: Seq<(String, Option<ComposeVolume>)>) -> Seq<Seq<char>>
    decreases volumes.len(),
{
    if volumes.len() == 0 {
        Seq::empty()
    } else {
        let rest = external_names(volumes.drop_last());
        match external_name(volumes.last().0@, volumes.last().1) {
            Some(n) => rest.push(n),
            None => rest,
        }
    }
}

/// The names of the volumes that exist outside the project.
pub fn external_volume_names(volumes: &Vec<(String, Option<ComposeVolume>)>) -> (res: Vec<String>)
    ensures
        res@.len() == external_names(volumes@).len(),
        forall|k: int| 0 <= k < res@.len() ==> (#[trigger] res@[k])@ == external_names(volumes@)[k],
{
    let mut res: Vec<String> = Vec::new();
    let mut i: usize = 0;
    while i < volumes.len()
        invariant
            i <= volumes@.len(),
            res@.len() == external_names(volumes@.take(i as int)).len(),
            forall|k: int|
                0 <= k < res@.len() ==> (#[trigger] res@[k])@ == external_names(
                    volumes@.take(i as int),
                )[k],
        decreases volumes@.len() - i,
    {
        assert(volumes@.take(i + 1).drop_last() =~= volumes@.take(i as int));
        match &volumes[i].1 {
            Some(ComposeVolume { external: Some(ExternalVolume::Bool(true)), .. }) => {
                res.push(volumes[i].0.clone());
            },
            Some(ComposeVolume { external: Some(ExternalVolume::Name(n)), .. }) => {
                res.push(n.clone());
            },
            _ => {},
        }
        i = i + 1;
    }
    assert(volumes@.take(i as int) =~= volumes@);
    res
}

} // verus!
