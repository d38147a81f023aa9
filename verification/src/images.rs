//! The local image gallery: which files of a directory listing count as
//! images, and picking one to show. Reading the directory happens outside;
//! this module works on the listed paths.

use vstd::prelude::*;
use crate::chance::random_below;
use crate::text::ends_with;
use crate::text::push_char;
use crate::text::spec_ends_with;

verus! {

/// One gallery image: its bare file name, the gallery title, the full path,
/// and its position in the original listing.
pub struct Image {
    pub file_name: String,
    pub title: String,
    pub path: String,
    pub id: usize,
}

impl View for Image {
    type V = (Seq<char>, Seq<char>, Seq<char>, int);

    open spec fn view(&self) -> (Seq<char>, Seq<char>, Seq<char>, int) {
        (self.file_name@, self.title@, self.path@, self.id as int)
    }
}

impl DeepView for Image {
    type V = (Seq<char>, Seq<char>, Seq<char>, int);

    open spec fn deep_view(&self) -> (Seq<char>, Seq<char>, Seq<char>, int) {
        self@
    }
}

impl Image {
    /// The bare file name.
    pub fn file_name(&self) -> (r: &str)
        ensures
            r@ == self@.0,
    {
        self.file_name.as_str()
    }

    /// The gallery title.
    pub fn title(&self) -> (r: &str)
        ensures
            r@ == self@.1,
    {
        self.title.as_str()
    }

    /// The full path.
    pub fn path(&self) -> (r: &str)
        ensures
            r@ == self@.2,
    {
        self.path.as_str()
    }

    /// The position in the original listing.
    pub fn id(&self) -> (r: usize)
        ensures
            r == self@.3,
    {
        self.id
    }
}

/// Whether a path names an image file.
pub open spec fn spec_is_image_path(p: Seq<char>) -> bool {
    ||| spec_ends_with(p, ".jpg"@)
    ||| spec_ends_with(p, ".jpeg"@)
    ||| spec_ends_with(p, ".png"@)
}

/// What stands after the last slash of a path: the bare file name.
pub open spec fn spec_file_name(p: Seq<char>) -> Seq<char>
    decreases p.len(),
{
    if p.len() == 0 {
        Seq::empty()
    } else if p.last() == '/' {
        Seq::empty()
    } else {
        spec_file_name(p.drop_last()).push(p.last())
    }
}

/// The gallery built from a directory listing: the image files, in listing
/// order, each keeping its listing position as its id.
pub open spec fn spec_gallery(entries: Seq<Seq<char>>, title: Seq<char>) -> Seq<
    (Seq<char>, Seq<char>, Seq<char>, int),
>
    decreases entries.len(),
{
    if entries.len() == 0 {
        Seq::empty()
    } else {
        let prefix = spec_gallery(entries.drop_last(), title);
        let p = entries.last();
        if spec_is_image_path(p) {
            prefix.push((spec_file_name(p), title, p, entries.len() - 1))
        } else {
            prefix
        }
    }
}

fn file_name_of(p: &str) -> (r: String)
    ensures
        r@ == spec_file_name(p@),
{
    let len = p.unicode_len();
    let mut out = String::new();
    let mut i: usize = 0;
    while i < len
        invariant
            len == p@.len(),
            i <= len,
            out@ == spec_file_name(p@.take(i as int)),
        decreases len - i,
    {
        let c = p.get_char(i);
        if c == '/' {
            out = String::new();
        } else {
            push_char(&mut out, c);
        }
        proof {
            assert(p@.take(i + 1).drop_last() =~= p@.take(i as int));
            assert(p@.take(i + 1).last() == p@[i as int]);
        }
        i = i + 1;
    }
    proof {
        assert(p@.take(len as int) =~= p@);
    }
    out
}

/// The image gallery.
pub struct Images;

impl Images {
    /// Keeps the image files of a directory listing, each under the shared
    /// title and its listing position.
    pub fn get_image_files(entries: &Vec<String>, title: &str) -> (r: Vec<Image>)
        ensures
            r.deep_view() == spec_gallery(entries.deep_view(), title@),
    {
        let mut out: Vec<Image> = Vec::new();
        let mut i: usize = 0;
        while i < entries.len()
            invariant
                i <= entries@.len(),
                entries.deep_view().len() == entries@.len(),
                out.deep_view() == spec_gallery(entries.deep_view().take(i as int), title@),
            decreases entries@.len() - i,
        {
            let ghost before = out.deep_view();
            let p = &entries[i];
            let is_image = ends_with(p.as_str(), ".jpg") || ends_with(p.as_str(), ".jpeg")
                || ends_with(p.as_str(), ".png");
            if is_image {
                let file_name = file_name_of(p.as_str());
                let image = Image {
                    file_name,
                    title: String::from_str(title),
                    path: p.clone(),
                    id: i,
                };
                out.push(image);
            }
            proof {
                let es = entries.deep_view();
                assert(es[i as int] == entries@[i as int]@);
                assert(es.take(i + 1).drop_last() =~= es.take(i as int));
                assert(es.take(i + 1).last() == es[i as int]);
                if spec_is_image_path(es[i as int]) {
                    assert(out.deep_view() =~= before.push(
                        (spec_file_name(es[i as int]), title@, es[i as int], i as int),
                    ));
                }
                assert(out.deep_view() =~= spec_gallery(es.take(i + 1), title@));
            }
            i = i + 1;
        }
        proof {
            assert(entries.deep_view().take(entries@.len() as int) =~= entries.deep_view());
        }
        out
    }

    /// Picks one gallery image at random; nothing when the gallery is empty.
    pub fn choose_image(images: &Vec<Image>) -> (r: Option<&Image>)
        ensures
            match r {
                Some(img) => exists|i: int| 0 <= i < images@.len() && *img == images@[i],
                None => images@.len() == 0,
            },
    {
        if images.len() == 0 {
            None
        } else {
            let index = random_below(images.len());
            Some(&images[index])
        }
    }
}

} // verus!
