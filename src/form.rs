use vstd::prelude::*;

verus! {

/// A key/value pair of a form body, as text.
pub type PairView = (Seq<char>, Seq<char>);

/// The two fields that a subscription form must carry.
#[derive(Clone, Copy, Debug, PartialEq, Eq)]
pub enum FormField {
    Email,
    Name,
}

/// Why a request body could not be read as a subscription form.
#[derive(Clone, Copy, Debug, PartialEq, Eq)]
pub enum FormError {
    /// The body is not declared as `application/x-www-form-urlencoded`.
    UnsupportedContentType,
    /// A required field is absent.
    MissingField(FormField),
    /// A required field is given more than once.
    DuplicateField(FormField),
}

/// A decoded subscription form.
#[derive(Debug, PartialEq, Eq)]
pub struct FormData {
    pub email: String,
    pub name: String,
}

/// The text of a decoded subscription form.
pub ghost struct FormFields {
    pub email: Seq<char>,
    pub name: Seq<char>,
}

impl View for FormData {
    type V = FormFields;

    open spec fn view(&self) -> FormFields {
        FormFields { email: self.email@, name: self.name@ }
    }
}

pub open spec fn key_of(field: FormField) -> Seq<char> {
    match field {
        FormField::Email => "email"@,
        FormField::Name => "name"@,
    }
}

pub open spec fn field_of_key(key: Seq<char>) -> Option<FormField> {
    if key == key_of(FormField::Email) {
        Some(FormField::Email)
    } else if key == key_of(FormField::Name) {
        Some(FormField::Name)
    } else {
        None
    }
}

/// The pairs of a `Vec` of owned strings, as text.
pub open spec fn pairs_view(pairs: Seq<(String, String)>) -> Seq<PairView> {
    pairs.map_values(|p: (String, String)| (p.0@, p.1@))
}

/// How many pairs carry the given key.
pub open spec fn key_count(pairs: Seq<PairView>, key: Seq<char>) -> nat
    decreases pairs.len(),
{
    if pairs.len() == 0 {
        0
    } else {
        key_count(pairs.drop_last(), key) + if pairs.last().0 == key {
            1nat
        } else {
            0nat
        }
    }
}

/// The value of the last pair that carries the given key.
pub open spec fn value_for(pairs: Seq<PairView>, key: Seq<char>) -> Seq<char>
    decreases pairs.len(),
{
    if pairs.len() == 0 {
        Seq::empty()
    } else if pairs.last().0 == key {
        pairs.last().1
    } else {
        value_for(pairs.drop_last(), key)
    }
}

/// The field whose second occurrence comes first in the pairs, if any field
/// occurs twice.
pub open spec fn first_repeat(pairs: Seq<PairView>) -> Option<FormField>
    decreases pairs.len(),
{
    if pairs.len() == 0 {
        None
    } else if first_repeat(pairs.drop_last()) is Some {
        first_repeat(pairs.drop_last())
    } else {
        match field_of_key(pairs.last().0) {
            Some(f) => if key_count(pairs.drop_last(), key_of(f)) > 0 {
                Some(f)
            } else {
                None
            },
            None => None,
        }
    }
}

/// The subscription form that a sequence of pairs spells: each of `email`
/// and `name` exactly once, other keys ignored.  A repeated field is refused
/// at its second occurrence; of two absent fields, `email` is reported.
pub open spec fn fields_of_pairs(pairs: Seq<PairView>) -> Result<FormFields, FormError> {
    match first_repeat(pairs) {
        Some(f) => Err(FormError::DuplicateField(f)),
        None => if key_count(pairs, key_of(FormField::Email)) == 0 {
            Err(FormError::MissingField(FormField::Email))
        } else if key_count(pairs, key_of(FormField::Name)) == 0 {
            Err(FormError::MissingField(FormField::Name))
        } else {
            Ok(
                FormFields {
                    email: value_for(pairs, key_of(FormField::Email)),
                    name: value_for(pairs, key_of(FormField::Name)),
                },
            )
        },
    }
}

pub open spec fn decoded_view(r: Result<FormData, FormError>) -> Result<FormFields, FormError> {
    match r {
        Ok(f) => Ok(f@),
        Err(e) => Err(e),
    }
}

proof fn lemma_first_repeat_settled(pairs: Seq<PairView>, k: int)
    requires
        0 <= k <= pairs.len(),
        first_repeat(pairs.take(k)) is Some,
    ensures
        first_repeat(pairs) == first_repeat(pairs.take(k)),
    decreases pairs.len() - k,
{
    if k == pairs.len() {
        assert(pairs.take(k) == pairs);
    } else {
        assert(pairs.drop_last().take(k) == pairs.take(k));
        lemma_first_repeat_settled(pairs.drop_last(), k);
    }
}

proof fn lemma_keys_differ()
    ensures
        key_of(FormField::Email) != key_of(FormField::Name),
{
    reveal_strlit("email");
    reveal_strlit("name");
    assert(key_of(FormField::Email).len() != key_of(FormField::Name).len());
}

/// Reads the two subscription fields out of the pairs of a form body.
pub fn fields_from_pairs(pairs: &Vec<(String, String)>) -> (r: Result<FormData, FormError>)
    ensures
        decoded_view(r) == fields_of_pairs(pairs_view(pairs@)),
{
    let ghost ps = pairs_view(pairs@);
    let email_key = "email".to_owned();
    let name_key = "name".to_owned();
    proof {
        lemma_keys_differ();
    }
    let mut email: Option<String> = None;
    let mut name: Option<String> = None;
    let n = pairs.len();
    for i in 0..n
        invariant
            n == pairs@.len(),
            ps == pairs_view(pairs@),
            email_key@ == key_of(FormField::Email),
            name_key@ == key_of(FormField::Name),
            email_key@ != name_key@,
            first_repeat(ps.take(i as int)) is None,
            email is Some <==> key_count(ps.take(i as int), email_key@) > 0,
            name is Some <==> key_count(ps.take(i as int), name_key@) > 0,
            email matches Some(e) ==> e@ == value_for(ps.take(i as int), email_key@),
            name matches Some(v) ==> v@ == value_for(ps.take(i as int), name_key@),
    {
        let ghost pre = ps.take(i as int);
        let ghost cur = ps.take(i + 1);
        assert(cur.drop_last() == pre);
        assert(cur.last() == ps[i as int]);
        let (key, value) = &pairs[i];
        assert(ps[i as int] == (key@, value@));
        if *key == email_key {
            if email.is_some() {
                proof {
                    lemma_first_repeat_settled(ps, i + 1);
                }
                return Err(FormError::DuplicateField(FormField::Email));
            }
            email = Some(value.clone());
        } else if *key == name_key {
            if name.is_some() {
                proof {
                    lemma_first_repeat_settled(ps, i + 1);
                }
                return Err(FormError::DuplicateField(FormField::Name));
            }
            name = Some(value.clone());
        }
    }
    assert(ps.take(n as int) == ps);
    match (email, name) {
        (None, _) => Err(FormError::MissingField(FormField::Email)),
        (Some(_), None) => Err(FormError::MissingField(FormField::Name)),
        (Some(email), Some(name)) => Ok(FormData { email, name }),
    }
}

/// The media type of a form body.
pub open spec fn form_media_type() -> Seq<char> {
    "application/x-www-form-urlencoded"@
}

/// What `str::to_lowercase` returns for a text.
pub uninterp spec fn lowercase_of(s: Seq<char>) -> Seq<char>;

/// The pairs that `form_urlencoded::parse` yields for a body.
pub uninterp spec fn form_pairs_of(body: Seq<u8>) -> Seq<(Seq<char>, Seq<char>)>;

/// Relies on `str::to_lowercase`: the lower-case form of a text, which
/// depends on its characters alone.
#[verifier::external_body]
fn lowercase(s: &str) -> (r: String)
    ensures
        r@ == lowercase_of(s@),
{
    s.to_lowercase()
}

/// Relies on `form_urlencoded::parse`: the body split at `&` and `=`, with
/// `+` and percent escapes decoded and invalid UTF-8 replaced, so that the
/// pairs depend on the bytes alone; an empty body yields no pair.
#[verifier::external_body]
fn parse_form(body: &[u8]) -> (r: Vec<(String, String)>)
    ensures
        pairs_view(r@) == form_pairs_of(body@),
        body@.len() == 0 ==> r@.len() == 0,
{
    form_urlencoded::parse(body).into_owned().collect()
}

/// Whether a media type is that of a form body, compared without regard to
/// case.
pub open spec fn accepts_media_type(media_type: Seq<char>) -> bool {
    lowercase_of(media_type) == form_media_type()
}

/// The outcome of decoding a request body, declared with the given media
/// type, as a subscription form.
pub open spec fn decode_spec(media_type: Seq<char>, body: Seq<u8>) -> Result<FormFields, FormError> {
    if !accepts_media_type(media_type) {
        Err(FormError::UnsupportedContentType)
    } else {
        fields_of_pairs(form_pairs_of(body))
    }
}

/// Whether a media type that is already in lower case is that of a form body.
pub fn is_form_media_type(lowered: &str) -> (r: bool)
    ensures
        r == (lowered@ == form_media_type()),
{
    lowered.to_owned() == "application/x-www-form-urlencoded".to_owned()
}

/// Whether a request declared with this media type carries a form body.
pub fn accepts_form(media_type: &str) -> (r: bool)
    ensures
        r == accepts_media_type(media_type@),
{
    let lowered = lowercase(media_type);
    is_form_media_type(lowered.as_str())
}

/// Decodes a request body, declared with the given media type (without its
/// parameters), as a subscription form.
pub fn decode_subscription(media_type: &str, body: &[u8]) -> (r: Result<FormData, FormError>)
    ensures
        decoded_view(r) == decode_spec(media_type@, body@),
        accepts_media_type(media_type@) && body@.len() == 0 ==> r == Err::<FormData, FormError>(
            FormError::MissingField(FormField::Email),
        ),
{
    if !accepts_form(media_type) {
        return Err(FormError::UnsupportedContentType);
    }
    let pairs = parse_form(body);
    let r = fields_from_pairs(&pairs);
    proof {
        if body@.len() == 0 {
            assert(pairs_view(pairs@).len() == 0);
        }
    }
    r
}

} // verus!
