//! Config files of apps: `host-file-name:/container/path[:property...]`.
use crate::manifest::mount::is_absolute;
use crate::text::{
    chars_equal, chars_of, contains_char, split_at_char, split_spec, string_of,
};
use vstd::prelude::*;

verus! {

/// A property of a config file.
#[derive(Debug, Clone, PartialEq, Eq)]
pub enum ConfigFileProperty {
    /// `ro` (true) or `rw` (false).
    ReadOnly(bool),
    /// Any other text; it is ignored.
    Unknown(String),
}

/// A file of the host that is placed into a container.
#[derive(Debug, Clone, PartialEq, Eq)]
pub struct ConfigFile {
    pub host_file_name: String,
    pub container_file_path: String,
    pub read_only: bool,
}

/// Why a text is no config file.
#[derive(Debug, Clone, Copy, PartialEq, Eq)]
pub enum ConfigFileError {
    /// Fewer than two parts separated by `:`; holds their number.
    TooFewParts(usize),
    /// The host file name holds a `/`.
    HostFileIsPath,
    /// The container path does not start at the root.
    ContainerPathNotAbsolute,
}

/// What a property text says about write access: `ro` and `rw` decide, others say nothing.
pub open spec fn property_read_only(p: Seq<char>) -> Option<bool> {
    if p == seq!['r', 'o'] {
        Some(true)
    } else if p == seq!['r', 'w'] {
        Some(false)
    } else {
        None
    }
}

/// The last access property of a list decides; without one a file is writable.
pub open spec fn read_only_of(props: Seq<ConfigFileProperty>) -> bool
    decreases props.len(),
{
    if props.len() == 0 {
        false
    } else {
        match props.last() {
            ConfigFileProperty::ReadOnly(v) => v,
            ConfigFileProperty::Unknown(_) => read_only_of(props.drop_last()),
        }
    }
}

/// The last access property among property texts decides; without one a file is writable.
pub open spec fn read_only_of_texts(props: Seq<Seq<char>>) -> bool
    decreases props.len(),
{
    if props.len() == 0 {
        false
    } else {
        match property_read_only(props.last()) {
            Some(v) => v,
            None => read_only_of_texts(props.drop_last()),
        }
    }
}

/// Host file name, container path and write access of the config file written as `text`.
pub open spec fn parse_config_file_spec(text: Seq<char>) -> Result<
    (Seq<char>, Seq<char>, bool),
    ConfigFileError,
> {
    let parts = split_spec(text, ':');
    if parts.len() < 2 {
        Err(ConfigFileError::TooFewParts(parts.len() as usize))
    } else if parts[0].contains('/') {
        Err(ConfigFileError::HostFileIsPath)
    } else if !is_absolute(parts[1]) {
        Err(ConfigFileError::ContainerPathNotAbsolute)
    } else {
        Ok((parts[0], parts[1], read_only_of_texts(parts.skip(2))))
    }
}

impl ConfigFileProperty {
    /// `ro` and `rw` set the access, any other text is kept as unknown.
    pub fn from(value: &str) -> (res: Self)
        ensures
            property_read_only(value@) matches Some(v) ==> res == ConfigFileProperty::ReadOnly(v),
            property_read_only(value@) is None ==> (res matches ConfigFileProperty::Unknown(u) && u@
                == value@),
    {
        Self::from_chars(&chars_of(value))
    }

    fn from_chars(text: &Vec<char>) -> (res: Self)
        ensures
            property_read_only(text@) matches Some(v) ==> res == ConfigFileProperty::ReadOnly(v),
            property_read_only(text@) is None ==> (res matches ConfigFileProperty::Unknown(u) && u@
                == text@),
    {
        let mut ro: Vec<char> = Vec::new();
        ro.push('r');
        ro.push('o');
        let mut rw: Vec<char> = Vec::new();
        rw.push('r');
        rw.push('w');
        assert(ro@ =~= seq!['r', 'o']);
        assert(rw@ =~= seq!['r', 'w']);
        if chars_equal(text, &ro) {
            ConfigFileProperty::ReadOnly(true)
        } else if chars_equal(text, &rw) {
            ConfigFileProperty::ReadOnly(false)
        } else {
            ConfigFileProperty::Unknown(string_of(text))
        }
    }
}

impl ConfigFile {
    /// A config file whose access is set by the last access property; unknown ones are ignored.
    pub fn new(
        host_file_name: String,
        container_file_path: String,
        properties: Vec<ConfigFileProperty>,
    ) -> (res: Self)
        ensures
            res.host_file_name == host_file_name,
            res.container_file_path == container_file_path,
            res.read_only == read_only_of(properties@),
    {
        let mut read_only = false;
        let mut i: usize = 0;
        assert(properties@.take(0) =~= Seq::<ConfigFileProperty>::empty());
        while i < properties.len()
            invariant
                0 <= i <= properties.len(),
                read_only == read_only_of(properties@.take(i as int)),
            decreases properties.len() - i,
        {
            assert(properties@.take(i as int + 1).drop_last() =~= properties@.take(i as int));
            match &properties[i] {
                ConfigFileProperty::ReadOnly(value) => {
                    read_only = *value;
                },
                ConfigFileProperty::Unknown(_) => {},
            }
            i = i + 1;
        }
        assert(properties@.take(properties.len() as int) =~= properties@);
        ConfigFile { host_file_name, container_file_path, read_only }
    }

    /// Reads a config file written as `name:/container/path`, followed by properties
    /// separated by `:`.
    pub fn from_str(s: &str) -> (res: Result<Self, ConfigFileError>)
        ensures
            match res {
                Ok(c) => parse_config_file_spec(s@) == Ok::<
                    (Seq<char>, Seq<char>, bool),
                    ConfigFileError,
                >((c.host_file_name@, c.container_file_path@, c.read_only)),
                Err(e) => parse_config_file_spec(s@) == Err::<
                    (Seq<char>, Seq<char>, bool),
                    ConfigFileError,
                >(e),
            },
    {
        let parts = split_at_char(&chars_of(s), ':');
        let n = parts.len();
        if n < 2 {
            return Err(ConfigFileError::TooFewParts(n));
        }
        if contains_char(&parts[0], '/') {
            return Err(ConfigFileError::HostFileIsPath);
        }
        if !(parts[1].len() > 0 && parts[1][0] == '/') {
            return Err(ConfigFileError::ContainerPathNotAbsolute);
        }
        let ghost texts = crate::text::pieces_view(parts@).skip(2);
        let mut properties: Vec<ConfigFileProperty> = Vec::new();
        let mut i: usize = 2;
        assert(texts.take(0) =~= Seq::<Seq<char>>::empty());
        while i < n
            invariant
                2 <= i <= n,
                n == parts.len(),
                texts == crate::text::pieces_view(parts@).skip(2),
                properties@.len() == i - 2,
                read_only_of(properties@) == read_only_of_texts(texts.take(i - 2)),
            decreases n - i,
        {
            let p = ConfigFileProperty::from_chars(&parts[i]);
            let ghost before = properties@;
            properties.push(p);
            assert(properties@.drop_last() =~= before);
            assert(texts.take(i - 1).drop_last() =~= texts.take(i - 2));
            assert(texts.take(i - 1).last() == parts@[i as int]@);
            i = i + 1;
        }
        assert(texts.take(n - 2) =~= texts);
        Ok(ConfigFile::new(string_of(&parts[0]), string_of(&parts[1]), properties))
    }
}

/// The access of a config file is decided by its last `ro` or `rw` property: after `ro` it
/// is read-only, after `rw` writable, any other property leaves the access as it was, and
/// without properties the file is writable. Property values behave alike.
pub proof fn law_config_file_access(
    props: Seq<Seq<char>>,
    t: Seq<char>,
    values: Seq<ConfigFileProperty>,
    p: ConfigFileProperty,
)
    ensures
        !read_only_of_texts(Seq::empty()),
        t == seq!['r', 'o'] ==> read_only_of_texts(props.push(t)),
        t == seq!['r', 'w'] ==> !read_only_of_texts(props.push(t)),
        t != seq!['r', 'o'] && t != seq!['r', 'w'] ==> read_only_of_texts(props.push(t))
            == read_only_of_texts(props),
        !read_only_of(Seq::empty()),
        p == ConfigFileProperty::ReadOnly(true) ==> read_only_of(values.push(p)),
        p == ConfigFileProperty::ReadOnly(false) ==> !read_only_of(values.push(p)),
        p is Unknown ==> read_only_of(values.push(p)) == read_only_of(values),
{
    assert(props.push(t).drop_last() =~= props);
    assert(values.push(p).drop_last() =~= values);
}

} // verus!
