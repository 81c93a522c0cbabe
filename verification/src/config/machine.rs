//! Machine description and operating-system matching.
//!
//! An operating system is identified by an [`OS`] value; [`OsCategory`] names
//! a family of them, and an [`OsMatcher`] answers whether a given system
//! belongs to a list built from systems and families.

use crate::text::same_text;
use vstd::prelude::*;
use vstd::slice::slice_to_vec;

verus! {

/// Supported CPU architectures.
#[derive(Debug, Clone, Copy, PartialEq, Eq, Structural, Hash)]
pub enum Architectures {
    /// 64-bit Intel/AMD processors
    X86_64,
    /// 64-bit ARM processors
    AArch64,
}

impl Architectures {
    /// The architecture that a detected name stands for: `aarch64` is
    /// [`Architectures::AArch64`], and every other name, or none at all, is
    /// [`Architectures::X86_64`].
    pub open spec fn of_name(name: Option<Seq<char>>) -> Architectures {
        if name == Some("aarch64"@) {
            Architectures::AArch64
        } else {
            Architectures::X86_64
        }
    }

    /// Whether `name` is the name of a supported architecture. Any other
    /// name, and no name at all, is taken for [`Architectures::X86_64`].
    pub open spec fn is_supported_name(name: Option<Seq<char>>) -> bool {
        name == Some("x86_64"@) || name == Some("aarch64"@)
    }

    /// Tests whether machine detection reported a supported architecture.
    pub fn recognises(name: Option<&str>) -> (r: bool)
        ensures
            r == Self::is_supported_name(
                match name {
                    Some(n) => Some(n@),
                    None => None,
                },
            ),
    {
        match name {
            Some(n) => same_text(n, "x86_64") || same_text(n, "aarch64"),
            None => false,
        }
    }

    /// Classifies the architecture name that machine detection reported.
    pub fn from_name(name: Option<&str>) -> (arch: Architectures)
        ensures
            arch == Self::of_name(
                match name {
                    Some(n) => Some(n@),
                    None => None,
                },
            ),
    {
        match name {
            Some(n) => {
                if same_text(n, "aarch64") {
                    Architectures::AArch64
                } else {
                    Architectures::X86_64
                }
            },
            None => Architectures::X86_64,
        }
    }
}

impl Default for Architectures {
    /// The architecture assumed where none was detected.
    fn default() -> (arch: Architectures)
        ensures
            arch == Architectures::X86_64,
    {
        Architectures::X86_64
    }
}

/// The operating systems that machine detection tells apart.
#[allow(non_camel_case_types)]
#[derive(Debug, Clone, Copy, PartialEq, Eq, Structural, Hash)]
pub enum OsType {
    AIX,
    AlmaLinux,
    Alpaquita,
    Alpine,
    ALTLinux,
    Amazon,
    Android,
    AOSC,
    Arch,
    Artix,
    Bazzite,
    Bluefin,
    CachyOS,
    CentOS,
    Cygwin,
    Debian,
    DragonFly,
    Elementary,
    Emscripten,
    EndeavourOS,
    Fedora,
    FreeBSD,
    Garuda,
    Gentoo,
    HardenedBSD,
    Hurd,
    Illumos,
    InstantOS,
    Ios,
    Kali,
    KDENeon,
    Linux,
    Mabox,
    Macos,
    Manjaro,
    Mariner,
    MidnightBSD,
    Mint,
    NetBSD,
    NixOS,
    Nobara,
    OpenBSD,
    OpenCloudOS,
    openEuler,
    openSUSE,
    OracleLinux,
    PikaOS,
    Pop,
    Raspbian,
    Redhat,
    RedHatEnterprise,
    Redox,
    RockyLinux,
    Solus,
    SUSE,
    Ubuntu,
    Ultramarine,
    Uos,
    Void,
    Zorin,
    Unknown,
    Windows,
}

/// The identity of an operating system. Two identities are the same system
/// exactly when they are equal.
#[derive(Debug, Clone, Copy, PartialEq, Eq, Structural, Hash)]
pub struct OS(pub OsType);

/// Families of operating systems that share an installation strategy.
/// Families may overlap: an Arch-based system is also Linux-based.
#[derive(Debug, Clone, Copy, PartialEq, Eq, Structural, Hash)]
pub enum OsCategory {
    /// Microsoft Windows, all versions
    Windows,
    /// Apple macOS
    MacOS,
    /// Every Linux distribution
    LinuxBased,
    /// Arch Linux and its derivatives
    ArchBased,
    /// The Red Hat family
    RHELBased,
    /// The Debian family
    DebianBased,
    /// Gentoo and its derivatives
    GentooBased,
    /// Android systems
    AndroidBased,
}

/// Selects one operating system or a whole family.
#[derive(Debug, Clone, Copy, PartialEq, Eq, Structural, Hash)]
pub enum OsSelector {
    /// One operating system
    OS(OS),
    /// A family of operating systems
    OsCategory(OsCategory),
}

/// The members of [`OsCategory::Windows`], in listing order.
pub open spec fn windows_based_os_list() -> Seq<OS> {
    seq![
        OS(OsType::Windows),
    ]
}

/// Lists Microsoft Windows, all versions.
pub fn windows_based_os() -> (list: Vec<OS>)
    ensures
        list@ == windows_based_os_list(),
{
    let list = vec![
        OS(OsType::Windows),
    ];
    assert(list@ =~= windows_based_os_list());
    list
}

/// The members of [`OsCategory::MacOS`], in listing order.
pub open spec fn mac_based_os_list() -> Seq<OS> {
    seq![
        OS(OsType::Macos),
    ]
}

/// Lists Apple macOS.
pub fn mac_based_os() -> (list: Vec<OS>)
    ensures
        list@ == mac_based_os_list(),
{
    let list = vec![
        OS(OsType::Macos),
    ];
    assert(list@ =~= mac_based_os_list());
    list
}

/// The members of [`OsCategory::LinuxBased`], in listing order.
pub open spec fn linux_based_os_list() -> Seq<OS> {
    seq![
        OS(OsType::Linux),
        OS(OsType::AlmaLinux),
        OS(OsType::Alpaquita),
        OS(OsType::Alpine),
        OS(OsType::Amazon),
        OS(OsType::AOSC),
        OS(OsType::Arch),
        OS(OsType::Artix),
        OS(OsType::Bluefin),
        OS(OsType::CachyOS),
        OS(OsType::CentOS),
        OS(OsType::Debian),
        OS(OsType::EndeavourOS),
        OS(OsType::Fedora),
        OS(OsType::Garuda),
        OS(OsType::Gentoo),
        OS(OsType::Kali),
        OS(OsType::Mabox),
        OS(OsType::Manjaro),
        OS(OsType::Mint),
        OS(OsType::NixOS),
        OS(OsType::Nobara),
        OS(OsType::openEuler),
        OS(OsType::openSUSE),
        OS(OsType::OracleLinux),
        OS(OsType::Pop),
        OS(OsType::Raspbian),
        OS(OsType::Redhat),
        OS(OsType::RedHatEnterprise),
        OS(OsType::RockyLinux),
        OS(OsType::SUSE),
        OS(OsType::Ubuntu),
        OS(OsType::Ultramarine),
        OS(OsType::Void),
    ]
}

/// Lists every Linux distribution.
pub fn linux_based_os() -> (list: Vec<OS>)
    ensures
        list@ == linux_based_os_list(),
{
    let list = vec![
        OS(OsType::Linux),
        OS(OsType::AlmaLinux),
        OS(OsType::Alpaquita),
        OS(OsType::Alpine),
        OS(OsType::Amazon),
        OS(OsType::AOSC),
        OS(OsType::Arch),
        OS(OsType::Artix),
        OS(OsType::Bluefin),
        OS(OsType::CachyOS),
        OS(OsType::CentOS),
        OS(OsType::Debian),
        OS(OsType::EndeavourOS),
        OS(OsType::Fedora),
        OS(OsType::Garuda),
        OS(OsType::Gentoo),
        OS(OsType::Kali),
        OS(OsType::Mabox),
        OS(OsType::Manjaro),
        OS(OsType::Mint),
        OS(OsType::NixOS),
        OS(OsType::Nobara),
        OS(OsType::openEuler),
        OS(OsType::openSUSE),
        OS(OsType::OracleLinux),
        OS(OsType::Pop),
        OS(OsType::Raspbian),
        OS(OsType::Redhat),
        OS(OsType::RedHatEnterprise),
        OS(OsType::RockyLinux),
        OS(OsType::SUSE),
        OS(OsType::Ubuntu),
        OS(OsType::Ultramarine),
        OS(OsType::Void),
    ];
    assert(list@ =~= linux_based_os_list());
    list
}

/// The members of [`OsCategory::ArchBased`], in listing order.
pub open spec fn arch_based_os_list() -> Seq<OS> {
    seq![
        OS(OsType::Arch),
        OS(OsType::Artix),
        OS(OsType::EndeavourOS),
        OS(OsType::Garuda),
        OS(OsType::Manjaro),
        OS(OsType::CachyOS),
    ]
}

/// Lists Arch Linux and its derivatives.
pub fn arch_based_os() -> (list: Vec<OS>)
    ensures
        list@ == arch_based_os_list(),
{
    let list = vec![
        OS(OsType::Arch),
        OS(OsType::Artix),
        OS(OsType::EndeavourOS),
        OS(OsType::Garuda),
        OS(OsType::Manjaro),
        OS(OsType::CachyOS),
    ];
    assert(list@ =~= arch_based_os_list());
    list
}

/// The members of [`OsCategory::RHELBased`], in listing order.
pub open spec fn rhel_based_os_list() -> Seq<OS> {
    seq![
        OS(OsType::AlmaLinux),
        OS(OsType::CentOS),
        OS(OsType::Fedora),
        OS(OsType::Nobara),
        OS(OsType::OracleLinux),
        OS(OsType::Redhat),
        OS(OsType::RedHatEnterprise),
        OS(OsType::RockyLinux),
    ]
}

/// Lists the Red Hat family.
pub fn rhel_based_os() -> (list: Vec<OS>)
    ensures
        list@ == rhel_based_os_list(),
{
    let list = vec![
        OS(OsType::AlmaLinux),
        OS(OsType::CentOS),
        OS(OsType::Fedora),
        OS(OsType::Nobara),
        OS(OsType::OracleLinux),
        OS(OsType::Redhat),
        OS(OsType::RedHatEnterprise),
        OS(OsType::RockyLinux),
    ];
    assert(list@ =~= rhel_based_os_list());
    list
}

/// The members of [`OsCategory::DebianBased`], in listing order.
pub open spec fn debian_based_os_list() -> Seq<OS> {
    seq![
        OS(OsType::Debian),
        OS(OsType::Ubuntu),
        OS(OsType::Mint),
        OS(OsType::Pop),
        OS(OsType::Raspbian),
    ]
}

/// Lists the Debian family.
pub fn debian_based_os() -> (list: Vec<OS>)
    ensures
        list@ == debian_based_os_list(),
{
    let list = vec![
        OS(OsType::Debian),
        OS(OsType::Ubuntu),
        OS(OsType::Mint),
        OS(OsType::Pop),
        OS(OsType::Raspbian),
    ];
    assert(list@ =~= debian_based_os_list());
    list
}

/// The members of [`OsCategory::GentooBased`], in listing order.
pub open spec fn gentoo_based_os_list() -> Seq<OS> {
    seq![
        OS(OsType::Gentoo),
    ]
}

/// Lists Gentoo and its derivatives.
pub fn gentoo_based_os() -> (list: Vec<OS>)
    ensures
        list@ == gentoo_based_os_list(),
{
    let list = vec![
        OS(OsType::Gentoo),
    ];
    assert(list@ =~= gentoo_based_os_list());
    list
}

/// The members of [`OsCategory::AndroidBased`], in listing order.
pub open spec fn android_based_os_list() -> Seq<OS> {
    seq![
        OS(OsType::Android),
    ]
}

/// Lists Android systems.
pub fn android_based_os() -> (list: Vec<OS>)
    ensures
        list@ == android_based_os_list(),
{
    let list = vec![
        OS(OsType::Android),
    ];
    assert(list@ =~= android_based_os_list());
    list
}

/// The members of `category`, in listing order.
pub open spec fn category_members(category: OsCategory) -> Seq<OS> {
    match category {
        OsCategory::Windows => windows_based_os_list(),
        OsCategory::MacOS => mac_based_os_list(),
        OsCategory::LinuxBased => linux_based_os_list(),
        OsCategory::ArchBased => arch_based_os_list(),
        OsCategory::RHELBased => rhel_based_os_list(),
        OsCategory::DebianBased => debian_based_os_list(),
        OsCategory::GentooBased => gentoo_based_os_list(),
        OsCategory::AndroidBased => android_based_os_list(),
    }
}

/// Whether `os` belongs to `category`.
pub open spec fn in_category(category: OsCategory, os: OS) -> bool {
    match category {
        OsCategory::Windows => {
            os.0 == OsType::Windows
        },
        OsCategory::MacOS => {
            os.0 == OsType::Macos
        },
        OsCategory::LinuxBased => {
            os.0 == OsType::Linux
                || os.0 == OsType::AlmaLinux
                || os.0 == OsType::Alpaquita
                || os.0 == OsType::Alpine
                || os.0 == OsType::Amazon
                || os.0 == OsType::AOSC
                || os.0 == OsType::Arch
                || os.0 == OsType::Artix
                || os.0 == OsType::Bluefin
                || os.0 == OsType::CachyOS
                || os.0 == OsType::CentOS
                || os.0 == OsType::Debian
                || os.0 == OsType::EndeavourOS
                || os.0 == OsType::Fedora
                || os.0 == OsType::Garuda
                || os.0 == OsType::Gentoo
                || os.0 == OsType::Kali
                || os.0 == OsType::Mabox
                || os.0 == OsType::Manjaro
                || os.0 == OsType::Mint
                || os.0 == OsType::NixOS
                || os.0 == OsType::Nobara
                || os.0 == OsType::openEuler
                || os.0 == OsType::openSUSE
                || os.0 == OsType::OracleLinux
                || os.0 == OsType::Pop
                || os.0 == OsType::Raspbian
                || os.0 == OsType::Redhat
                || os.0 == OsType::RedHatEnterprise
                || os.0 == OsType::RockyLinux
                || os.0 == OsType::SUSE
                || os.0 == OsType::Ubuntu
                || os.0 == OsType::Ultramarine
                || os.0 == OsType::Void
        },
        OsCategory::ArchBased => {
            os.0 == OsType::Arch
                || os.0 == OsType::Artix
                || os.0 == OsType::EndeavourOS
                || os.0 == OsType::Garuda
                || os.0 == OsType::Manjaro
                || os.0 == OsType::CachyOS
        },
        OsCategory::RHELBased => {
            os.0 == OsType::AlmaLinux
                || os.0 == OsType::CentOS
                || os.0 == OsType::Fedora
                || os.0 == OsType::Nobara
                || os.0 == OsType::OracleLinux
                || os.0 == OsType::Redhat
                || os.0 == OsType::RedHatEnterprise
                || os.0 == OsType::RockyLinux
        },
        OsCategory::DebianBased => {
            os.0 == OsType::Debian
                || os.0 == OsType::Ubuntu
                || os.0 == OsType::Mint
                || os.0 == OsType::Pop
                || os.0 == OsType::Raspbian
        },
        OsCategory::GentooBased => {
            os.0 == OsType::Gentoo
        },
        OsCategory::AndroidBased => {
            os.0 == OsType::Android
        },
    }
}

/// The list of [`OsCategory::Windows`] holds exactly its members.
proof fn lemma_windows_based_os(os: OS)
    ensures
        windows_based_os_list().contains(os) == in_category(OsCategory::Windows, os),
{
    let list = windows_based_os_list();
    if in_category(OsCategory::Windows, os) {
        if os.0 == OsType::Windows {
            assert(list[0] == os);
        }
    }
    if list.contains(os) {
        let i = choose|i: int| 0 <= i < list.len() && list[i] == os;
        if i == 0 {
            assert(os.0 == OsType::Windows);
        }
    }
}

/// The list of [`OsCategory::MacOS`] holds exactly its members.
proof fn lemma_mac_based_os(os: OS)
    ensures
        mac_based_os_list().contains(os) == in_category(OsCategory::MacOS, os),
{
    let list = mac_based_os_list();
    if in_category(OsCategory::MacOS, os) {
        if os.0 == OsType::Macos {
            assert(list[0] == os);
        }
    }
    if list.contains(os) {
        let i = choose|i: int| 0 <= i < list.len() && list[i] == os;
        if i == 0 {
            assert(os.0 == OsType::Macos);
        }
    }
}

/// The list of [`OsCategory::LinuxBased`] holds exactly its members.
proof fn lemma_linux_based_os(os: OS)
    ensures
        linux_based_os_list().contains(os) == in_category(OsCategory::LinuxBased, os),
{
    let list = linux_based_os_list();
    if in_category(OsCategory::LinuxBased, os) {
        if os.0 == OsType::Linux {
            assert(list[0] == os);
        }
        if os.0 == OsType::AlmaLinux {
            assert(list[1] == os);
        }
        if os.0 == OsType::Alpaquita {
            assert(list[2] == os);
        }
        if os.0 == OsType::Alpine {
            assert(list[3] == os);
        }
        if os.0 == OsType::Amazon {
            assert(list[4] == os);
        }
        if os.0 == OsType::AOSC {
            assert(list[5] == os);
        }
        if os.0 == OsType::Arch {
            assert(list[6] == os);
        }
        if os.0 == OsType::Artix {
            assert(list[7] == os);
        }
        if os.0 == OsType::Bluefin {
            assert(list[8] == os);
        }
        if os.0 == OsType::CachyOS {
            assert(list[9] == os);
        }
        if os.0 == OsType::CentOS {
            assert(list[10] == os);
        }
        if os.0 == OsType::Debian {
            assert(list[11] == os);
        }
        if os.0 == OsType::EndeavourOS {
            assert(list[12] == os);
        }
        if os.0 == OsType::Fedora {
            assert(list[13] == os);
        }
        if os.0 == OsType::Garuda {
            assert(list[14] == os);
        }
        if os.0 == OsType::Gentoo {
            assert(list[15] == os);
        }
        if os.0 == OsType::Kali {
            assert(list[16] == os);
        }
        if os.0 == OsType::Mabox {
            assert(list[17] == os);
        }
        if os.0 == OsType::Manjaro {
            assert(list[18] == os);
        }
        if os.0 == OsType::Mint {
            assert(list[19] == os);
        }
        if os.0 == OsType::NixOS {
            assert(list[20] == os);
        }
        if os.0 == OsType::Nobara {
            assert(list[21] == os);
        }
        if os.0 == OsType::openEuler {
            assert(list[22] == os);
        }
        if os.0 == OsType::openSUSE {
            assert(list[23] == os);
        }
        if os.0 == OsType::OracleLinux {
            assert(list[24] == os);
        }
        if os.0 == OsType::Pop {
            assert(list[25] == os);
        }
        if os.0 == OsType::Raspbian {
            assert(list[26] == os);
        }
        if os.0 == OsType::Redhat {
            assert(list[27] == os);
        }
        if os.0 == OsType::RedHatEnterprise {
            assert(list[28] == os);
        }
        if os.0 == OsType::RockyLinux {
            assert(list[29] == os);
        }
        if os.0 == OsType::SUSE {
            assert(list[30] == os);
        }
        if os.0 == OsType::Ubuntu {
            assert(list[31] == os);
        }
        if os.0 == OsType::Ultramarine {
            assert(list[32] == os);
        }
        if os.0 == OsType::Void {
            assert(list[33] == os);
        }
    }
    if list.contains(os) {
        let i = choose|i: int| 0 <= i < list.len() && list[i] == os;
        if i == 0 {
            assert(os.0 == OsType::Linux);
        }
        if i == 1 {
            assert(os.0 == OsType::AlmaLinux);
        }
        if i == 2 {
            assert(os.0 == OsType::Alpaquita);
        }
        if i == 3 {
            assert(os.0 == OsType::Alpine);
        }
        if i == 4 {
            assert(os.0 == OsType::Amazon);
        }
        if i == 5 {
            assert(os.0 == OsType::AOSC);
        }
        if i == 6 {
            assert(os.0 == OsType::Arch);
        }
        if i == 7 {
            assert(os.0 == OsType::Artix);
        }
        if i == 8 {
            assert(os.0 == OsType::Bluefin);
        }
        if i == 9 {
            assert(os.0 == OsType::CachyOS);
        }
        if i == 10 {
            assert(os.0 == OsType::CentOS);
        }
        if i == 11 {
            assert(os.0 == OsType::Debian);
        }
        if i == 12 {
            assert(os.0 == OsType::EndeavourOS);
        }
        if i == 13 {
            assert(os.0 == OsType::Fedora);
        }
        if i == 14 {
            assert(os.0 == OsType::Garuda);
        }
        if i == 15 {
            assert(os.0 == OsType::Gentoo);
        }
        if i == 16 {
            assert(os.0 == OsType::Kali);
        }
        if i == 17 {
            assert(os.0 == OsType::Mabox);
        }
        if i == 18 {
            assert(os.0 == OsType::Manjaro);
        }
        if i == 19 {
            assert(os.0 == OsType::Mint);
        }
        if i == 20 {
            assert(os.0 == OsType::NixOS);
        }
        if i == 21 {
            assert(os.0 == OsType::Nobara);
        }
        if i == 22 {
            assert(os.0 == OsType::openEuler);
        }
        if i == 23 {
            assert(os.0 == OsType::openSUSE);
        }
        if i == 24 {
            assert(os.0 == OsType::OracleLinux);
        }
        if i == 25 {
            assert(os.0 == OsType::Pop);
        }
        if i == 26 {
            assert(os.0 == OsType::Raspbian);
        }
        if i == 27 {
            assert(os.0 == OsType::Redhat);
        }
        if i == 28 {
            assert(os.0 == OsType::RedHatEnterprise);
        }
        if i == 29 {
            assert(os.0 == OsType::RockyLinux);
        }
        if i == 30 {
            assert(os.0 == OsType::SUSE);
        }
        if i == 31 {
            assert(os.0 == OsType::Ubuntu);
        }
        if i == 32 {
            assert(os.0 == OsType::Ultramarine);
        }
        if i == 33 {
            assert(os.0 == OsType::Void);
        }
    }
}

/// The list of [`OsCategory::ArchBased`] holds exactly its members.
proof fn lemma_arch_based_os(os: OS)
    ensures
        arch_based_os_list().contains(os) == in_category(OsCategory::ArchBased, os),
{
    let list = arch_based_os_list();
    if in_category(OsCategory::ArchBased, os) {
        if os.0 == OsType::Arch {
            assert(list[0] == os);
        }
        if os.0 == OsType::Artix {
            assert(list[1] == os);
        }
        if os.0 == OsType::EndeavourOS {
            assert(list[2] == os);
        }
        if os.0 == OsType::Garuda {
            assert(list[3] == os);
        }
        if os.0 == OsType::Manjaro {
            assert(list[4] == os);
        }
        if os.0 == OsType::CachyOS {
            assert(list[5] == os);
        }
    }
    if list.contains(os) {
        let i = choose|i: int| 0 <= i < list.len() && list[i] == os;
        if i == 0 {
            assert(os.0 == OsType::Arch);
        }
        if i == 1 {
            assert(os.0 == OsType::Artix);
        }
        if i == 2 {
            assert(os.0 == OsType::EndeavourOS);
        }
        if i == 3 {
            assert(os.0 == OsType::Garuda);
        }
        if i == 4 {
            assert(os.0 == OsType::Manjaro);
        }
        if i == 5 {
            assert(os.0 == OsType::CachyOS);
        }
    }
}

/// The list of [`OsCategory::RHELBased`] holds exactly its members.
proof fn lemma_rhel_based_os(os: OS)
    ensures
        rhel_based_os_list().contains(os) == in_category(OsCategory::RHELBased, os),
{
    let list = rhel_based_os_list();
    if in_category(OsCategory::RHELBased, os) {
        if os.0 == OsType::AlmaLinux {
            assert(list[0] == os);
        }
        if os.0 == OsType::CentOS {
            assert(list[1] == os);
        }
        if os.0 == OsType::Fedora {
            assert(list[2] == os);
        }
        if os.0 == OsType::Nobara {
            assert(list[3] == os);
        }
        if os.0 == OsType::OracleLinux {
            assert(list[4] == os);
        }
        if os.0 == OsType::Redhat {
            assert(list[5] == os);
        }
        if os.0 == OsType::RedHatEnterprise {
            assert(list[6] == os);
        }
        if os.0 == OsType::RockyLinux {
            assert(list[7] == os);
        }
    }
    if list.contains(os) {
        let i = choose|i: int| 0 <= i < list.len() && list[i] == os;
        if i == 0 {
            assert(os.0 == OsType::AlmaLinux);
        }
        if i == 1 {
            assert(os.0 == OsType::CentOS);
        }
        if i == 2 {
            assert(os.0 == OsType::Fedora);
        }
        if i == 3 {
            assert(os.0 == OsType::Nobara);
        }
        if i == 4 {
            assert(os.0 == OsType::OracleLinux);
        }
        if i == 5 {
            assert(os.0 == OsType::Redhat);
        }
        if i == 6 {
            assert(os.0 == OsType::RedHatEnterprise);
        }
        if i == 7 {
            assert(os.0 == OsType::RockyLinux);
        }
    }
}

/// The list of [`OsCategory::DebianBased`] holds exactly its members.
proof fn lemma_debian_based_os(os: OS)
    ensures
        debian_based_os_list().contains(os) == in_category(OsCategory::DebianBased, os),
{
    let list = debian_based_os_list();
    if in_category(OsCategory::DebianBased, os) {
        if os.0 == OsType::Debian {
            assert(list[0] == os);
        }
        if os.0 == OsType::Ubuntu {
            assert(list[1] == os);
        }
        if os.0 == OsType::Mint {
            assert(list[2] == os);
        }
        if os.0 == OsType::Pop {
            assert(list[3] == os);
        }
        if os.0 == OsType::Raspbian {
            assert(list[4] == os);
        }
    }
    if list.contains(os) {
        let i = choose|i: int| 0 <= i < list.len() && list[i] == os;
        if i == 0 {
            assert(os.0 == OsType::Debian);
        }
        if i == 1 {
            assert(os.0 == OsType::Ubuntu);
        }
        if i == 2 {
            assert(os.0 == OsType::Mint);
        }
        if i == 3 {
            assert(os.0 == OsType::Pop);
        }
        if i == 4 {
            assert(os.0 == OsType::Raspbian);
        }
    }
}

/// The list of [`OsCategory::GentooBased`] holds exactly its members.
proof fn lemma_gentoo_based_os(os: OS)
    ensures
        gentoo_based_os_list().contains(os) == in_category(OsCategory::GentooBased, os),
{
    let list = gentoo_based_os_list();
    if in_category(OsCategory::GentooBased, os) {
        if os.0 == OsType::Gentoo {
            assert(list[0] == os);
        }
    }
    if list.contains(os) {
        let i = choose|i: int| 0 <= i < list.len() && list[i] == os;
        if i == 0 {
            assert(os.0 == OsType::Gentoo);
        }
    }
}

/// The list of [`OsCategory::AndroidBased`] holds exactly its members.
proof fn lemma_android_based_os(os: OS)
    ensures
        android_based_os_list().contains(os) == in_category(OsCategory::AndroidBased, os),
{
    let list = android_based_os_list();
    if in_category(OsCategory::AndroidBased, os) {
        if os.0 == OsType::Android {
            assert(list[0] == os);
        }
    }
    if list.contains(os) {
        let i = choose|i: int| 0 <= i < list.len() && list[i] == os;
        if i == 0 {
            assert(os.0 == OsType::Android);
        }
    }
}

/// The list of a category holds exactly the members of the category.
pub proof fn lemma_category_members(category: OsCategory, os: OS)
    ensures
        category_members(category).contains(os) == in_category(category, os),
{
    match category {
        OsCategory::Windows => lemma_windows_based_os(os),
        OsCategory::MacOS => lemma_mac_based_os(os),
        OsCategory::LinuxBased => lemma_linux_based_os(os),
        OsCategory::ArchBased => lemma_arch_based_os(os),
        OsCategory::RHELBased => lemma_rhel_based_os(os),
        OsCategory::DebianBased => lemma_debian_based_os(os),
        OsCategory::GentooBased => lemma_gentoo_based_os(os),
        OsCategory::AndroidBased => lemma_android_based_os(os),
    }
}

/// Families overlap as they should: every system of the Arch, Red Hat,
/// Debian and Gentoo families is a Linux system, and no Linux system is
/// Windows, macOS or Android.
pub proof fn lemma_linux_families(os: OS)
    ensures
        in_category(OsCategory::ArchBased, os) ==> in_category(OsCategory::LinuxBased, os),
        in_category(OsCategory::RHELBased, os) ==> in_category(OsCategory::LinuxBased, os),
        in_category(OsCategory::DebianBased, os) ==> in_category(OsCategory::LinuxBased, os),
        in_category(OsCategory::GentooBased, os) ==> in_category(OsCategory::LinuxBased, os),
        in_category(OsCategory::LinuxBased, os) ==> !in_category(OsCategory::Windows, os)
            && !in_category(OsCategory::MacOS, os) && !in_category(OsCategory::AndroidBased, os),
{
}

/// The members of all of `categories`, family after family. A system that
/// belongs to several of them is listed once for each.
pub open spec fn union_members(categories: Seq<OsCategory>) -> Seq<OS>
    decreases categories.len(),
{
    if categories.len() == 0 {
        Seq::empty()
    } else {
        union_members(categories.drop_last()) + category_members(categories.last())
    }
}

/// A system is listed in `union_members(categories)` exactly when one of the
/// categories has it as a member; listing it more than once changes nothing.
pub proof fn lemma_union_members(categories: Seq<OsCategory>, os: OS)
    ensures
        union_members(categories).contains(os) <==> exists|i: int|
            0 <= i < categories.len() && category_members(#[trigger] categories[i]).contains(os),
    decreases categories.len(),
{
    if categories.len() > 0 {
        let front = categories.drop_last();
        let back = category_members(categories.last());
        lemma_union_members(front, os);
        lemma_concat_contains(union_members(front), back, os);
        if union_members(categories).contains(os) {
            if back.contains(os) {
                assert(category_members(categories[categories.len() - 1]).contains(os));
            } else {
                let i = choose|i: int|
                    0 <= i < front.len() && category_members(#[trigger] front[i]).contains(os);
                assert(category_members(categories[i]).contains(os));
            }
        }
        if exists|i: int|
            0 <= i < categories.len() && category_members(#[trigger] categories[i]).contains(os) {
            let i = choose|i: int|
                0 <= i < categories.len() && category_members(#[trigger] categories[i]).contains(
                    os,
                );
            if i < front.len() {
                assert(category_members(front[i]).contains(os));
            }
        }
    }
}

/// An element is in a concatenation exactly when it is in one of the parts.
pub proof fn lemma_concat_contains(a: Seq<OS>, b: Seq<OS>, os: OS)
    ensures
        (a + b).contains(os) <==> a.contains(os) || b.contains(os),
{
    if a.contains(os) {
        let i = choose|i: int| 0 <= i < a.len() && a[i] == os;
        assert((a + b)[i] == os);
    }
    if b.contains(os) {
        let i = choose|i: int| 0 <= i < b.len() && b[i] == os;
        assert((a + b)[a.len() + i] == os);
    }
    if (a + b).contains(os) {
        let i = choose|i: int| 0 <= i < (a + b).len() && (a + b)[i] == os;
        if i < a.len() {
            assert(a[i] == os);
        } else {
            assert(b[i - a.len()] == os);
        }
    }
}

/// Matches operating systems against a list of supported systems.
#[derive(Debug, Clone, PartialEq, Eq)]
pub struct OsMatcher {
    os_list: Vec<OS>,
}

impl View for OsMatcher {
    type V = Seq<OS>;

    /// The supported systems, in listing order.
    closed spec fn view(&self) -> Seq<OS> {
        self.os_list@
    }
}

impl OsMatcher {
    /// Creates a matcher for exactly the systems of `os_list`.
    pub fn new(os_list: &[OS]) -> (matcher: Self)
        ensures
            matcher@ == os_list@,
    {
        Self { os_list: slice_to_vec(os_list) }
    }

    /// Whether `os` is one of the supported systems.
    pub fn matches(&self, os: &OS) -> (found: bool)
        ensures
            found == self@.contains(*os),
    {
        let mut i: usize = 0;
        while i < self.os_list.len()
            invariant
                i <= self.os_list.len(),
                forall|k: int| 0 <= k < i ==> self.os_list@[k] != *os,
            decreases self.os_list.len() - i,
        {
            if self.os_list[i] == *os {
                return true;
            }
            i = i + 1;
        }
        false
    }

    /// Creates a matcher from one system or one family.
    pub fn from_selector(selector: OsSelector) -> (matcher: Self)
        ensures
            matcher@ == match selector {
                OsSelector::OS(os) => seq![os],
                OsSelector::OsCategory(category) => category_members(category),
            },
    {
        match selector {
            OsSelector::OS(os) => {
                let list = vec![os];
                assert(list@ =~= seq![os]);
                Self { os_list: list }
            },
            OsSelector::OsCategory(category) => OsMatcher::from_category(category),
        }
    }

    /// Creates a matcher for a whole family.
    pub fn from_category(category: OsCategory) -> (matcher: Self)
        ensures
            matcher@ == category_members(category),
            forall|os: OS| matcher@.contains(os) == in_category(category, os),
    {
        proof {
            assert forall|os: OS|
                category_members(category).contains(os) == in_category(category, os) by {
                lemma_category_members(category, os);
            }
        }
        let list = match category {
            OsCategory::Windows => windows_based_os(),
            OsCategory::MacOS => mac_based_os(),
            OsCategory::LinuxBased => linux_based_os(),
            OsCategory::ArchBased => arch_based_os(),
            OsCategory::RHELBased => rhel_based_os(),
            OsCategory::DebianBased => debian_based_os(),
            OsCategory::GentooBased => gentoo_based_os(),
            OsCategory::AndroidBased => android_based_os(),
        };
        Self { os_list: list }
    }

    /// Creates a matcher for the union of several families. With no family
    /// given it matches nothing.
    pub fn from_categories(categories: &[OsCategory]) -> (matcher: Self)
        ensures
            matcher@ == union_members(categories@),
            forall|os: OS|
                matcher@.contains(os) <==> exists|i: int|
                    0 <= i < categories@.len() && in_category(#[trigger] categories@[i], os),
    {
        let mut list: Vec<OS> = Vec::new();
        let mut i: usize = 0;
        while i < categories.len()
            invariant
                i <= categories.len(),
                list@ == union_members(categories@.take(i as int)),
            decreases categories.len() - i,
        {
            let mut members = OsMatcher::from_category(categories[i]).os_list;
            assert(categories@.take(i + 1).drop_last() =~= categories@.take(i as int));
            list.append(&mut members);
            i = i + 1;
        }
        assert(categories@.take(categories.len() as int) =~= categories@);
        proof {
            assert forall|os: OS|
                list@.contains(os) <==> exists|i: int|
                    0 <= i < categories@.len() && in_category(#[trigger] categories@[i], os) by {
                lemma_union_members(categories@, os);
                if list@.contains(os) {
                    let i = choose|i: int|
                        0 <= i < categories@.len() && category_members(
                            #[trigger] categories@[i],
                        ).contains(os);
                    lemma_category_members(categories@[i], os);
                }
                if exists|i: int|
                    0 <= i < categories@.len() && in_category(#[trigger] categories@[i], os) {
                    let i = choose|i: int|
                        0 <= i < categories@.len() && in_category(#[trigger] categories@[i], os);
                    lemma_category_members(categories@[i], os);
                }
            }
        }
        Self { os_list: list }
    }

    /// The supported systems, in listing order.
    pub fn get_list(&self) -> (list: &[OS])
        ensures
            list@ == self@,
    {
        self.os_list.as_slice()
    }
}

/// The detected machine: its operating system and its architecture.
#[derive(Debug, Clone, Copy, PartialEq, Eq, Structural, Hash)]
pub struct Machine {
    /// Detected operating system
    pub os: OS,
    /// Detected CPU architecture
    pub arch: Architectures,
}

impl Machine {
    /// Describes a machine from what detection reported: the operating
    /// system and the name of the architecture, if any.
    pub fn detected(os: OS, arch_name: Option<&str>) -> (machine: Self)
        ensures
            machine.os == os,
            machine.arch == Architectures::of_name(
                match arch_name {
                    Some(n) => Some(n@),
                    None => None,
                },
            ),
    {
        Machine { os, arch: Architectures::from_name(arch_name) }
    }
}

} // verus!
