use vstd::prelude::*;
use rand::seq::SliceRandom;

verus! {

/// Why no secret could be drawn from a catalog document.
#[derive(Clone, Copy, Debug, PartialEq, Eq, Structural)]
pub enum CatalogError {
    /// The document is not valid JSON, or its `data` field is missing or does
    /// not hold an array of strings.
    Malformed,
    /// The document holds an empty list of words.
    Empty,
}

/// The list of words that a catalog document denotes: the `data` field of a
/// JSON document, read as an array of strings, or nothing where the document
/// has no such shape. A function of the text alone.
pub uninterp spec fn catalog_of(text: Seq<char>) -> Option<Seq<Seq<char>>>;

/// Relies on serde_json::from_str::<Value>, serde_json::Value::get and
/// serde_json::from_value::<Vec<String>>: together they parse a JSON document
/// and read its `data` field as an array of strings, succeeding exactly on the
/// documents of that shape; the outcome depends on the text alone.
#[verifier::external_body]
fn extract_catalog(text: &str) -> (r: Option<Vec<String>>)
    ensures
        r matches Some(words) ==> catalog_of(text@) == Some(words.deep_view()),
        r is None ==> catalog_of(text@) is None,
{
    let doc: serde_json::Value = serde_json::from_str(text).ok()?;
    let data = doc.get("data")?;
    serde_json::from_value::<Vec<String>>(data.clone()).ok()
}

/// Relies on rand::seq::SliceRandom::choose with rand::thread_rng: returns
/// None exactly on an empty slice, and otherwise one random element of the
/// slice. Which element comes back is chance, so nothing more is stated.
#[verifier::external_body]
fn choose_word(words: &Vec<String>) -> (r: Option<String>)
    ensures
        r is None <==> words@.len() == 0,
        r matches Some(w) ==> exists|i: int| 0 <= i < words@.len() && w@ == words@[i]@,
{
    let mut rng = rand::thread_rng();
    words.choose(&mut rng).cloned()
}

/// The words of a catalog document, or the error saying why it has none:
/// malformed where the document does not hold a `data` array of strings, and
/// empty where that array holds no word.
pub fn parse_catalog(text: &str) -> (r: Result<Vec<String>, CatalogError>)
    ensures
        (r matches Ok(words) ==> catalog_of(text@) == Some(words.deep_view()) && words@.len() > 0),
        r == Err::<Vec<String>, _>(CatalogError::Malformed) <==> catalog_of(text@) is None,
        r == Err::<Vec<String>, _>(CatalogError::Empty) <==> (catalog_of(text@) matches Some(c)
            && c.len() == 0),
        r is Ok <==> (catalog_of(text@) matches Some(c) && c.len() > 0),
{
    match extract_catalog(text) {
        None => Err(CatalogError::Malformed),
        Some(words) => {
            if words.len() == 0 {
                proof {
                    assert(words.deep_view().len() == 0);
                }
                Err(CatalogError::Empty)
            } else {
                proof {
                    assert(words.deep_view().len() == words@.len());
                }
                Ok(words)
            }
        },
    }
}

/// One word drawn at random from a catalog document, the secret of a fresh
/// game. Fails exactly where the document is malformed or its word list is
/// empty, and otherwise returns one of the catalog's words.
pub fn get_random_string(text: &str) -> (r: Result<String, CatalogError>)
    ensures
        (r matches Ok(w) ==> (catalog_of(text@) matches Some(c) && c.contains(w@))),
        (r matches Err(e) ==> Err::<String, _>(e) == match catalog_of(text@) {
            None => Err::<String, CatalogError>(CatalogError::Malformed),
            Some(c) => Err::<String, CatalogError>(CatalogError::Empty),
        }),
        r is Ok <==> (catalog_of(text@) matches Some(c) && c.len() > 0),
{
    let words = match parse_catalog(text) {
        Ok(words) => words,
        Err(e) => {
            return Err(e);
        },
    };
    match choose_word(&words) {
        Some(w) => {
            proof {
                let i = choose|i: int| 0 <= i < words@.len() && w@ == words@[i]@;
                assert(words.deep_view()[i] == w@);
            }
            Ok(w)
        },
        None => {
            proof {
                assert(false);
            }
            Err(CatalogError::Empty)
        },
    }
}

} // verus!
