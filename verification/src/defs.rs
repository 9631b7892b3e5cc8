//! The quoting helper and the definition deriver: from package metadata to
//! the ordered list of macro definitions.

use vstd::prelude::*;

use crate::config::Config;
use crate::names::{norm_seq, normalize};
use crate::strutil::push_char;

verus! {

/// A value wrapped in double quotes for embedding as a string literal on a
/// compiler command line. Embedded quote or backslash characters are not
/// escaped; this is a documented limitation.
pub open spec fn quote_seq(v: Seq<char>) -> Seq<char> {
    seq!['"'] + v + seq!['"']
}

/// Wraps `value` in double-quote characters. No escaping of embedded quotes
/// or backslashes is performed.
pub fn quote(value: &str) -> (r: String)
    ensures
        r@ == quote_seq(value@),
{
    let mut out = String::new();
    push_char(&mut out, '"');
    out.append(value);
    push_char(&mut out, '"');
    proof {
        assert(out@ =~= quote_seq(value@));
    }
    out
}

/// The dot-separated components of a version string. Splitting the empty
/// string yields one empty component, so the result is never empty.
pub open spec fn split_dots(s: Seq<char>) -> Seq<Seq<char>>
    decreases s.len(),
{
    if s.len() == 0 {
        seq![Seq::<char>::empty()]
    } else if s[0] == '.' {
        seq![Seq::<char>::empty()] + split_dots(s.drop_first())
    } else {
        let rest = split_dots(s.drop_first());
        seq![seq![s[0]] + rest[0]] + rest.drop_first()
    }
}

pub proof fn lemma_split_dots_nonempty(s: Seq<char>)
    ensures
        split_dots(s).len() >= 1,
    decreases s.len(),
{
    if s.len() != 0 {
        lemma_split_dots_nonempty(s.drop_first());
    }
}

/// Splits a string on `.` into its components, in order.
fn split_on_dots(s: &str) -> (r: Vec<String>)
    ensures
        r@.map_values(|x: String| x@) == split_dots(s@),
{
    let len = s.unicode_len();
    let mut done: Vec<String> = Vec::new();
    let mut cur: String = String::new();
    proof {
        lemma_split_dots_nonempty(s@);
        assert(s@.skip(0) =~= s@);
        assert(cur@ + split_dots(s@)[0] =~= split_dots(s@)[0]);
        assert(split_dots(s@) =~= done@.map_values(|x: String| x@) + seq![
            cur@ + split_dots(s@.skip(0))[0],
        ] + split_dots(s@.skip(0)).drop_first());
    }
    let mut i: usize = 0;
    while i < len
        invariant
            i <= len,
            len == s@.len(),
            split_dots(s@) == done@.map_values(|x: String| x@) + seq![
                cur@ + split_dots(s@.skip(i as int))[0],
            ] + split_dots(s@.skip(i as int)).drop_first(),
        decreases len - i,
    {
        let ghost tail = s@.skip(i as int);
        let ghost tail_next = s@.skip(i + 1);
        proof {
            assert(tail.len() > 0);
            assert(tail[0] == s@[i as int]);
            assert(tail.drop_first() =~= tail_next);
            lemma_split_dots_nonempty(tail_next);
        }
        let c = s.get_char(i);
        if c == '.' {
            proof {
                assert(split_dots(tail) =~= seq![Seq::<char>::empty()] + split_dots(tail_next));
            }
            let ghost old_done = done@;
            let ghost old_cur = cur@;
            done.push(cur);
            cur = String::new();
            proof {
                assert(old_cur + Seq::<char>::empty() =~= old_cur);
                assert(done@.map_values(|x: String| x@) =~= old_done.map_values(|x: String| x@)
                    + seq![old_cur]);
                assert(split_dots(s@) =~= done@.map_values(|x: String| x@) + seq![
                    cur@ + split_dots(tail_next)[0],
                ] + split_dots(tail_next).drop_first());
            }
        } else {
            proof {
                let rest = split_dots(tail_next);
                assert(split_dots(tail) =~= seq![seq![tail[0]] + rest[0]] + rest.drop_first());
            }
            let ghost old_cur = cur@;
            push_char(&mut cur, c);
            proof {
                assert(cur@ + split_dots(tail_next)[0] =~= old_cur + split_dots(tail)[0]);
                assert(split_dots(s@) =~= done@.map_values(|x: String| x@) + seq![
                    cur@ + split_dots(tail_next)[0],
                ] + split_dots(tail_next).drop_first());
            }
        }
        i += 1;
    }
    proof {
        assert(s@.skip(len as int) =~= Seq::<char>::empty());
        assert(split_dots(s@.skip(len as int)) =~= seq![Seq::<char>::empty()]);
        assert(cur@ + Seq::<char>::empty() =~= cur@);
    }
    let ghost old_done = done@;
    let ghost final_cur = cur@;
    done.push(cur);
    proof {
        assert(done@.map_values(|x: String| x@) =~= old_done.map_values(|x: String| x@) + seq![
            final_cur,
        ]);
        assert(done@.map_values(|x: String| x@) =~= split_dots(s@));
    }
    done
}

/// The suffix of the i-th version-component macro name.
pub open spec fn version_suffix(i: int) -> Seq<char> {
    if i == 0 {
        "_MAJOR"@
    } else if i == 1 {
        "_MINOR"@
    } else {
        "_PATCH"@
    }
}

/// How many version-component macros are emitted: the number of dot-separated
/// components of the version, capped at three.
pub open spec fn component_count(version: Seq<char>) -> int {
    if split_dots(version).len() < 3 {
        split_dots(version).len() as int
    } else {
        3
    }
}

/// The ordered macro definitions derived from a package's name and version:
/// the presence flag, the quoted full version, then one macro per leading
/// version component (at most three), unquoted.
pub open spec fn derived_defs(name: Seq<char>, version: Seq<char>) -> Seq<
    (Seq<char>, Seq<char>),
> {
    let n = norm_seq(name);
    let comps = split_dots(version);
    seq![(n, "1"@), (n + "_VERSION"@, quote_seq(version))] + Seq::new(
        component_count(version) as nat,
        |i: int| (n + version_suffix(i), comps[i]),
    )
}

/// The deriver emits exactly `2 + k` definitions, where `k` is the number of
/// leading version components (at most three), and their names are the
/// normalized package name `N`, then `N_VERSION`, then the first `k` of
/// `N_MAJOR`, `N_MINOR`, `N_PATCH`.
pub proof fn lemma_derived_defs_shape(name: Seq<char>, version: Seq<char>)
    ensures
        derived_defs(name, version).len() == 2 + component_count(version),
        derived_defs(name, version)[0].0 == norm_seq(name),
        derived_defs(name, version)[0].1 == "1"@,
        derived_defs(name, version)[1].0 == norm_seq(name) + "_VERSION"@,
        derived_defs(name, version)[1].1 == quote_seq(version),
        forall|i: int|
            0 <= i < component_count(version) ==> #[trigger] derived_defs(name, version)[2 + i].0
                == norm_seq(name) + version_suffix(i),
        forall|i: int|
            0 <= i < component_count(version) ==> #[trigger] derived_defs(name, version)[2 + i].1
                == split_dots(version)[i],
{
    lemma_split_dots_nonempty(version);
}

/// Derives the macro definitions for a parsed configuration's package.
pub fn get_definitions(cfg: &Config) -> (r: Vec<(String, String)>)
    ensures
        r@.map_values(|d: (String, String)| (d.0@, d.1@)) == derived_defs(
            cfg.package.name@,
            cfg.package.version@,
        ),
{
    let ghost goal = derived_defs(cfg.package.name@, cfg.package.version@);
    let name = normalize(cfg.package.name.as_str());
    let mut defs: Vec<(String, String)> = Vec::new();

    let flag_name = name.clone();
    defs.push((flag_name, String::from_str("1")));

    let mut version_name = name.clone();
    version_name.append("_VERSION");
    defs.push((version_name, quote(cfg.package.version.as_str())));

    let comps = split_on_dots(cfg.package.version.as_str());
    proof {
        lemma_split_dots_nonempty(cfg.package.version@);
        assert(defs@.map_values(|d: (String, String)| (d.0@, d.1@)) =~= goal.take(2));
    }
    let m: usize = if comps.len() < 3 {
        comps.len()
    } else {
        3
    };
    let mut i: usize = 0;
    while i < m
        invariant
            i <= m,
            m == component_count(cfg.package.version@),
            comps@.map_values(|x: String| x@) == split_dots(cfg.package.version@),
            name@ == norm_seq(cfg.package.name@),
            goal == derived_defs(cfg.package.name@, cfg.package.version@),
            defs@.map_values(|d: (String, String)| (d.0@, d.1@)) == goal.take(2 + i),
        decreases m - i,
    {
        let mut comp_name = name.clone();
        if i == 0 {
            comp_name.append("_MAJOR");
        } else if i == 1 {
            comp_name.append("_MINOR");
        } else {
            comp_name.append("_PATCH");
        }
        let component = comps[i].clone();
        proof {
            assert(comp_name@ == norm_seq(cfg.package.name@) + version_suffix(i as int));
            assert(component@ == split_dots(cfg.package.version@)[i as int]);
        }
        let ghost old_defs = defs@;
        defs.push((comp_name, component));
        proof {
            assert(defs@.map_values(|d: (String, String)| (d.0@, d.1@)) =~= old_defs.map_values(
                |d: (String, String)| (d.0@, d.1@),
            ).push((goal[2 + i].0, goal[2 + i].1)));
            assert(defs@.map_values(|d: (String, String)| (d.0@, d.1@)) =~= goal.take(2 + i + 1));
        }
        i += 1;
    }
    proof {
        assert(goal.take(2 + m) =~= goal);
    }
    defs
}

} // verus!
