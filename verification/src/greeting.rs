use vstd::prelude::*;

verus! {

/// The names joined by `sep`: `a`, `a sep b`, `a sep b sep c`, ...
pub open spec fn joined(names: Seq<Seq<char>>, sep: Seq<char>) -> Seq<char>
    decreases names.len(),
{
    if names.len() == 0 {
        Seq::<char>::empty()
    } else if names.len() == 1 {
        names[0]
    } else {
        joined(names.drop_last(), sep) + sep + names.last()
    }
}

/// The greeting for a list of names: `Hello!` with no names, else
/// `Hello, ` followed by the names joined with `, ` and a closing `!`.
pub open spec fn greeting_text(names: Seq<Seq<char>>) -> Seq<char> {
    if names.len() == 0 {
        "Hello!"@
    } else {
        "Hello, "@ + joined(names, ", "@) + "!"@
    }
}

/// The names as character sequences.
pub open spec fn name_texts(names: Seq<String>) -> Seq<Seq<char>> {
    names.map_values(|name: String| name@)
}

/// The greeting that the backend answers a list of names with.
pub fn backend_wgpu_greeting(names: &[String]) -> (text: String)
    ensures
        text@ == greeting_text(name_texts(names@)),
{
    if names.len() == 0 {
        return String::from_str("Hello!");
    }
    let ghost texts = name_texts(names@);
    let mut text: String = String::from_str("Hello, ");
    let ghost prefix = text@;
    let mut i: usize = 0;
    while i < names.len()
        invariant
            0 <= i <= names@.len(),
            texts == name_texts(names@),
            prefix == "Hello, "@,
            text@ == prefix + joined(texts.take(i as int), ", "@),
        decreases names@.len() - i,
    {
        if i != 0 {
            text.append(", ");
        }
        text.append(names[i].as_str());
        proof {
            assert(texts.take((i + 1) as int).drop_last() =~= texts.take(i as int));
            if i == 0 {
                assert(joined(texts.take(1), ", "@) == texts[0]);
            }
        }
        i = i + 1;
    }
    proof {
        assert(texts.take(names@.len() as int) =~= texts);
    }
    text.append("!");
    text
}

} // verus!
