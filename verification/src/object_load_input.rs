use vstd::prelude::*;

verus! {

/// The files the user chose for an object: its mesh, texture, normal map and UV
/// unwrap, by file name.
#[derive(Clone, Debug)]
pub struct ObjectProperties {
    pub stl_data: String,
    pub texture_data: String,
    pub normal_map: String,
    pub uv: String,
}

impl Default for ObjectProperties {
    /// Nothing chosen yet: every field reads "Не выбрано" ("not chosen").
    fn default() -> (r: Self)
        ensures
            r.stl_data@ == "Не выбрано"@,
            r.texture_data@ == "Не выбрано"@,
            r.normal_map@ == "Не выбрано"@,
            r.uv@ == "Не выбрано"@,
    {
        ObjectProperties {
            stl_data: "Не выбрано".to_owned(),
            texture_data: "Не выбрано".to_owned(),
            normal_map: "Не выбрано".to_owned(),
            uv: "Не выбрано".to_owned(),
        }
    }
}

/// One entry of a directory listing: its file name and extension when they are
/// valid UTF-8, and whether it is a regular file.
#[derive(Clone, Debug)]
pub struct DirEntryInfo {
    pub file_name: Option<String>,
    pub is_file: bool,
    pub extension: Option<String>,
}

/// The entry is a regular file with a name and with the extension `extension`.
pub open spec fn is_listed(entry: DirEntryInfo, extension: Seq<char>) -> bool {
    &&& entry.is_file
    &&& entry.extension matches Some(e) && e@ == extension
    &&& entry.file_name is Some
}

/// The names of the listed entries, in the order of the listing.
pub open spec fn listed_names(entries: Seq<DirEntryInfo>, extension: Seq<char>) -> Seq<Seq<char>>
    decreases entries.len(),
{
    if entries.len() == 0 {
        Seq::empty()
    } else {
        let rest = listed_names(entries.drop_last(), extension);
        if is_listed(entries.last(), extension) {
            rest.push(entries.last().file_name->0@)
        } else {
            rest
        }
    }
}

/// The names of the regular files of a directory listing that have the extension
/// `extension`, in the order of the listing: the choices offered for a mesh, a
/// texture, a normal map or a scene.
pub fn files_with_extension(entries: &Vec<DirEntryInfo>, extension: &str) -> (r: Vec<String>)
    ensures
        r@.map_values(|s: String| s@) == listed_names(entries@, extension@),
{
    let wanted = extension.to_owned();
    let mut files: Vec<String> = Vec::new();
    let n = entries.len();
    let mut i: usize = 0;
    while i < n
        invariant
            n == entries@.len(),
            i <= n,
            wanted@ == extension@,
            files@.map_values(|s: String| s@) == listed_names(
                entries@.subrange(0, i as int),
                extension@,
            ),
        decreases n - i,
    {
        let entry = &entries[i];
        let ghost prefix = entries@.subrange(0, i + 1);
        assert(prefix.drop_last() =~= entries@.subrange(0, i as int));
        assert(prefix.last() == entries@[i as int]);
        if entry.is_file {
            match &entry.extension {
                Some(e) => {
                    if *e == wanted {
                        match &entry.file_name {
                            Some(name) => {
                                let ghost before = files@;
                                files.push(name.clone());
                                assert(files@.map_values(|s: String| s@) =~= before.map_values(
                                    |s: String| s@,
                                ).push(name@));
                            },
                            None => {},
                        }
                    }
                },
                None => {},
            }
        }
        i = i + 1;
    }
    assert(entries@.subrange(0, n as int) =~= entries@);
    files
}

/// Every entry of a listing is looked at, in order: an empty listing offers nothing;
/// one more entry that is a regular file with a name and with the wanted extension
/// adds its name at the end, and any other entry adds nothing.
pub proof fn lemma_listing_reports_each_entry(
    entries: Seq<DirEntryInfo>,
    entry: DirEntryInfo,
    extension: Seq<char>,
)
    ensures
        listed_names(Seq::<DirEntryInfo>::empty(), extension) == Seq::<Seq<char>>::empty(),
        entry.is_file && entry.extension is Some && entry.extension->0@ == extension
            && entry.file_name is Some ==> listed_names(entries.push(entry), extension) == listed_names(
            entries,
            extension,
        ).push(entry.file_name->0@),
        !(entry.is_file && entry.extension is Some && entry.extension->0@ == extension
            && entry.file_name is Some) ==> listed_names(entries.push(entry), extension)
            == listed_names(entries, extension),
        listed_names(seq![entry], extension) == if entry.is_file && entry.extension is Some
            && entry.extension->0@ == extension && entry.file_name is Some {
            seq![entry.file_name->0@]
        } else {
            Seq::<Seq<char>>::empty()
        },
{
    assert(entries.push(entry).drop_last() =~= entries);
    assert(seq![entry].drop_last() =~= Seq::<DirEntryInfo>::empty());
    assert(seq![entry].last() == entry);
    assert(listed_names(Seq::<DirEntryInfo>::empty(), extension) == Seq::<Seq<char>>::empty());
    assert(Seq::<Seq<char>>::empty().push(entry.file_name->0@) =~= seq![entry.file_name->0@]);
}

} // verus!
