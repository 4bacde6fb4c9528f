//! The built-in list of sample downloads offered in the pop-up.

use vstd::prelude::*;
use vstd::string::*;
use crate::list_state::{ListState, TableSelection};

verus! {

/// One sample download: its name, URL and announced size. Rows whose URL is
/// empty are section headings.
#[derive(Debug, Clone)]
pub struct DevList {
    pub name: String,
    pub url: String,
    pub size: String,
}

/// The sample downloads, in the order the pop-up lists them, as
/// (name, URL, size).
pub open spec fn sample_catalog() -> Seq<(Seq<char>, Seq<char>, Seq<char>)> {
    seq![
        ("Parallel"@, ""@, ""@),
        ("ubuntu-24.04.2-desktop-amd64.iso"@, "https://releases.ubuntu.com/24.04.2/ubuntu-24.04.2-desktop-amd64.iso"@, "5.9 GiB"@),
        ("LibreOffice_25.2.3_Linux_x86-64_deb.tar.gz"@, "https://download.documentfoundation.org/libreoffice/stable/25.2.3/deb/x86_64/LibreOffice_25.2.3_Linux_x86-64_deb.tar.gz"@, "198.9 MiB"@),
        ("10Gb.dat"@, "https://proof.ovh.net/files/10Gb.dat"@, "10 GiB"@),
        ("100Mb.dat"@, "https://proof.ovh.net/files/100Mb.dat"@, "100 MiB"@),
        ("100MB.zip"@, "http://speedtest.tele2.net/100MB.zip"@, "100 MiB"@),
        ("10Mb.dat"@, "https://proof.ovh.net/files/10Mb.dat"@, "10 MiB"@),
        ("10Mb.dat"@, "https://proof.ovh.net/files/10Mb.dat"@, "10 MiB"@),
        ("Sequential"@, ""@, ""@),
        ("mozilla B2G_2_5_20160125_MERGEDAY.zip"@, "https://github.com/mozilla/gecko-dev/archive/refs/tags/B2G_2_5_20160125_MERGEDAY.zip"@, "316.9 MiB"@),
        ("tensorflow v2.18.1.zip"@, "https://github.com/tensorflow/tensorflow/archive/refs/tags/v2.18.1.zip"@, "90.8 MiB"@),
        ("opencv 4.11.0.zip"@, "https://github.com/opencv/opencv/archive/refs/tags/4.11.0.zip"@, "88.9 MiB"@),
    ]
}

/// The value of a sample row.
pub open spec fn dev_row(d: DevList) -> (Seq<char>, Seq<char>, Seq<char>) {
    (d.name@, d.url@, d.size@)
}

impl DevList {
    /// A sample row.
    pub fn new(name: String, url: String, size: String) -> (d: Self)
        ensures
            d.name == name,
            d.url == url,
            d.size == size,
    {
        DevList { name, url, size }
    }

    /// The sample downloads, with nothing selected.
    pub fn list() -> (l: ListState<DevList>)
        ensures
            l.state.selected == None::<usize>,
            l.items@.len() == sample_catalog().len(),
            forall|i: int| 0 <= i < l.items@.len() ==> dev_row(#[trigger] l.items@[i]) == sample_catalog()[i],
    {
        let mut items: Vec<DevList> = Vec::new();
    items.push(DevList::new(String::from_str("Parallel"), String::from_str(""), String::from_str("")));
    items.push(DevList::new(String::from_str("ubuntu-24.04.2-desktop-amd64.iso"), String::from_str("https://releases.ubuntu.com/24.04.2/ubuntu-24.04.2-desktop-amd64.iso"), String::from_str("5.9 GiB")));
    items.push(DevList::new(String::from_str("LibreOffice_25.2.3_Linux_x86-64_deb.tar.gz"), String::from_str("https://download.documentfoundation.org/libreoffice/stable/25.2.3/deb/x86_64/LibreOffice_25.2.3_Linux_x86-64_deb.tar.gz"), String::from_str("198.9 MiB")));
    items.push(DevList::new(String::from_str("10Gb.dat"), String::from_str("https://proof.ovh.net/files/10Gb.dat"), String::from_str("10 GiB")));
    items.push(DevList::new(String::from_str("100Mb.dat"), String::from_str("https://proof.ovh.net/files/100Mb.dat"), String::from_str("100 MiB")));
    items.push(DevList::new(String::from_str("100MB.zip"), String::from_str("http://speedtest.tele2.net/100MB.zip"), String::from_str("100 MiB")));
    items.push(DevList::new(String::from_str("10Mb.dat"), String::from_str("https://proof.ovh.net/files/10Mb.dat"), String::from_str("10 MiB")));
    items.push(DevList::new(String::from_str("10Mb.dat"), String::from_str("https://proof.ovh.net/files/10Mb.dat"), String::from_str("10 MiB")));
    items.push(DevList::new(String::from_str("Sequential"), String::from_str(""), String::from_str("")));
    items.push(DevList::new(String::from_str("mozilla B2G_2_5_20160125_MERGEDAY.zip"), String::from_str("https://github.com/mozilla/gecko-dev/archive/refs/tags/B2G_2_5_20160125_MERGEDAY.zip"), String::from_str("316.9 MiB")));
    items.push(DevList::new(String::from_str("tensorflow v2.18.1.zip"), String::from_str("https://github.com/tensorflow/tensorflow/archive/refs/tags/v2.18.1.zip"), String::from_str("90.8 MiB")));
    items.push(DevList::new(String::from_str("opencv 4.11.0.zip"), String::from_str("https://github.com/opencv/opencv/archive/refs/tags/4.11.0.zip"), String::from_str("88.9 MiB")));
        let l = ListState { state: TableSelection::new(), items };
        assert(l.items@.map_values(|d: DevList| dev_row(d)) =~= sample_catalog());
        l
    }

    /// The cells of this row in the pop-up: name, size, URL.
    pub fn cells(&self) -> (cells: Vec<String>)
        ensures
            cells@.len() == 3,
            cells@[0] == self.name,
            cells@[1] == self.size,
            cells@[2] == self.url,
    {
        let mut cells: Vec<String> = Vec::new();
        cells.push(self.name.clone());
        cells.push(self.size.clone());
        cells.push(self.url.clone());
        cells
    }
}

} // verus!
