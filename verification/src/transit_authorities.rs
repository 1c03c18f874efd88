use vstd::prelude::*;

verus! {

/// The transit authorities whose static GTFS feeds this library knows.
#[derive(Debug, Clone, Copy, PartialEq, Eq, Structural)]
pub enum SupportedTransitAuthorities {
    Boston,
}

impl SupportedTransitAuthorities {
    /// Where the authority publishes its zipped static feed.
    pub open spec fn spec_download_url(self) -> Seq<char> {
        match self {
            SupportedTransitAuthorities::Boston => "https://cdn.mbta.com/MBTA_GTFS.zip"@,
        }
    }

    /// The directory (with a trailing slash) that the feed is unpacked into.
    pub open spec fn spec_download_dir(self) -> Seq<char> {
        match self {
            SupportedTransitAuthorities::Boston => "src/boston/"@,
        }
    }

    /// The display name of the authority, as stored with every row.
    pub open spec fn spec_name(self) -> Seq<char> {
        match self {
            SupportedTransitAuthorities::Boston => "Boston"@,
        }
    }

    pub fn download_url(&self) -> (url: &str)
        ensures
            url@ == self.spec_download_url(),
    {
        match self {
            SupportedTransitAuthorities::Boston => "https://cdn.mbta.com/MBTA_GTFS.zip",
        }
    }

    pub fn get_static_download_dir(&self) -> (dir: &str)
        ensures
            dir@ == self.spec_download_dir(),
    {
        match self {
            SupportedTransitAuthorities::Boston => "src/boston/",
        }
    }

    /// The text that the authority displays as.
    pub fn name(&self) -> (name: &str)
        ensures
            name@ == self.spec_name(),
    {
        match self {
            SupportedTransitAuthorities::Boston => "Boston",
        }
    }

    /// The path of one file of the unpacked feed: the download directory
    /// followed by the file's name.
    pub fn static_file_path(&self, file_name: &str) -> (path: String)
        ensures
            path@ == self.spec_download_dir() + file_name@,
    {
        let dir = String::from_str(self.get_static_download_dir());
        dir.concat(file_name)
    }
}

} // verus!
