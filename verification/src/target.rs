//! Which assembly file defines `get_current_fiber` on a target.
use vstd::prelude::*;

verus! {

/// The target links against the runtime of the Microsoft compiler, where the current fiber is
/// had from an intrinsic of that compiler and so takes assembly.
pub open spec fn is_windows_msvc(target: Seq<char>) -> bool {
    "windows-msvc"@.is_suffix_of(target)
}

/// The architecture: what stands before the first `-` of a target, or all of it.
pub open spec fn architecture(target: Seq<char>) -> Seq<char> {
    match target.index_of_first('-') {
        Some(dash) => target.take(dash),
        None => target,
    }
}

/// The name of the assembly file for an architecture, where there is one.
pub open spec fn file_for(architecture: Seq<char>) -> Option<Seq<char>> {
    if architecture == "x86"@ {
        Some("get_current_fiber_x86.asm"@)
    } else if architecture == "x86_64"@ {
        Some("get_current_fiber_x64.asm"@)
    } else {
        None
    }
}

/// Assembly is for the targets whose last twelve characters are `windows-msvc`, and for no other.
pub proof fn windows_msvc_is_in_the_last_twelve_characters(target: Seq<char>)
    ensures
        is_windows_msvc(target) <==> target.len() >= 12 && target.subrange(
            target.len() - 12,
            target.len() as int,
        ) == "windows-msvc"@,
{
    reveal_strlit("windows-msvc");
}

/// The architecture is what stands before the first `-`; what comes behind has no say in it.
pub proof fn the_architecture_stands_before_the_first_dash(target: Seq<char>, dash: int)
    requires
        0 <= dash <= target.len(),
        forall|j: int| 0 <= j < dash ==> target[j] != '-',
        dash < target.len() ==> target[dash] == '-',
    ensures
        architecture(target) == target.take(dash),
{
    target.index_of_first_ensures('-');
    if let Some(index) = target.index_of_first('-') {
        assert(target[index] == '-');
        if dash < index {
            assert(target[dash] != '-');
        }
    } else {
        if dash < target.len() {
            assert(target.contains(target[dash]));
        }
        assert(target.take(dash) =~= target);
    }
}

/// There is a file for `x86` and one for `x86_64`, each its own, and none for any other
/// architecture.
pub proof fn only_two_architectures_have_a_file(architecture: Seq<char>)
    ensures
        file_for("x86"@) == Some("get_current_fiber_x86.asm"@),
        file_for("x86_64"@) == Some("get_current_fiber_x64.asm"@),
        architecture != "x86"@ && architecture != "x86_64"@ ==> file_for(architecture) is None,
        file_for("x86"@) != file_for("x86_64"@),
{
    reveal_strlit("x86");
    reveal_strlit("x86_64");
    reveal_strlit("get_current_fiber_x86.asm");
    reveal_strlit("get_current_fiber_x64.asm");
    assert("x86"@.len() != "x86_64"@.len());
    assert("get_current_fiber_x86.asm"@[19] != "get_current_fiber_x64.asm"@[19]);
}

/// The name of the assembly file that `target`, a target triple, needs: none unless it is one
/// of Windows with the Microsoft runtime. An architecture without such a file is the error.
pub fn asm_file(target: &str) -> (file: Result<Option<String>, String>)
    ensures
        match file {
            Ok(None) => !is_windows_msvc(target@),
            Ok(Some(name)) => is_windows_msvc(target@) && file_for(architecture(target@)) == Some(
                name@,
            ),
            Err(unsupported) => is_windows_msvc(target@) && file_for(architecture(target@)) is None
                && unsupported@ == architecture(target@),
        },
        file matches Ok(None) <==> !(target@.len() >= 12 && target@.subrange(
            target@.len() - 12,
            target@.len() as int,
        ) == "windows-msvc"@),
        forall|dash: int|
            #![trigger target@.take(dash)]
            {
                &&& target@.len() >= 12
                &&& target@.subrange(target@.len() - 12, target@.len() as int) == "windows-msvc"@
                &&& 0 <= dash <= target@.len()
                &&& forall|j: int| 0 <= j < dash ==> target@[j] != '-'
                &&& dash < target@.len() ==> target@[dash] == '-'
            } ==> match file {
                Ok(Some(name)) => {
                    ||| target@.take(dash) == "x86"@ && name@ == "get_current_fiber_x86.asm"@
                    ||| target@.take(dash) == "x86_64"@ && name@ == "get_current_fiber_x64.asm"@
                },
                Err(unsupported) => {
                    &&& target@.take(dash) != "x86"@
                    &&& target@.take(dash) != "x86_64"@
                    &&& unsupported@ == target@.take(dash)
                },
                Ok(None) => false,
            },
{
    proof {
        windows_msvc_is_in_the_last_twelve_characters(target@);
        assert forall|dash: int|
            #![trigger target@.take(dash)]
            0 <= dash <= target@.len() && (forall|j: int| 0 <= j < dash ==> target@[j] != '-') && (
            dash < target@.len() ==> target@[dash] == '-') implies target@.take(dash)
            == architecture(target@) by {
            the_architecture_stands_before_the_first_dash(target@, dash);
        }
    }
    let length: usize = target.unicode_len();
    let suffix = "windows-msvc";
    let suffix_length: usize = suffix.unicode_len();
    if length < suffix_length || !reads(target, length - suffix_length, length, suffix) {
        return Ok(None);
    }
    let dash: usize = find_dash(target, length);
    if reads(target, 0, dash, "x86") {
        Ok(Some("get_current_fiber_x86.asm".to_owned()))
    } else if reads(target, 0, dash, "x86_64") {
        Ok(Some("get_current_fiber_x64.asm".to_owned()))
    } else {
        Err(target.substring_char(0, dash).to_owned())
    }
}

/// Tells whether the characters of `text` from `from` to `to` are `word`.
fn reads(text: &str, from: usize, to: usize, word: &str) -> (same: bool)
    requires
        from <= to <= text@.len(),
    ensures
        same == (text@.subrange(from as int, to as int) == word@),
{
    if word.unicode_len() != to - from {
        return false;
    }
    let mut i: usize = 0;
    while i < to - from
        invariant
            from <= to <= text@.len(),
            word@.len() == to - from,
            i <= to - from,
            forall|j: int| 0 <= j < i ==> text@[from + j] == word@[j],
        decreases to - from - i,
    {
        if text.get_char(from + i) != word.get_char(i) {
            assert(text@.subrange(from as int, to as int)[i as int] != word@[i as int]);
            return false;
        }
        i = i + 1;
    }
    assert(text@.subrange(from as int, to as int) =~= word@);
    true
}

/// How many characters stand before the first `-`.
fn find_dash(text: &str, length: usize) -> (dash: usize)
    requires
        length == text@.len(),
    ensures
        dash <= length,
        text@.subrange(0, dash as int) == architecture(text@),
{
    proof {
        text@.index_of_first_ensures('-');
    }
    let mut dash: usize = 0;
    while dash < length
        invariant
            length == text@.len(),
            dash <= length,
            forall|j: int| 0 <= j < dash ==> text@[j] != '-',
            match text@.index_of_first('-') {
                Some(index) => 0 <= index < text@.len() && text@[index] == '-' && forall|j: int|
                    0 <= j < index ==> text@[j] != '-',
                None => !text@.contains('-'),
            },
        decreases length - dash,
    {
        if text.get_char(dash) == '-' {
            return dash;
        }
        dash = dash + 1;
    }
    assert(text@.subrange(0, dash as int) =~= text@);
    dash
}

} // verus!
