//! Paths derived from template step destinations such as
//! `src/core/{{ Service }}.Core.Application/Features/{{ Feature }}/Commands/{{ Name }}Command.cs`.
use vstd::prelude::*;

use crate::template_management::model::{render_destination, step_path_text, TemplateStep, TemplateStepAction};
use crate::text::{
    concat, contains, has_prefix, has_sub, has_suffix, push_char, replace, spec_replace,
    spec_split, spec_strip_prefix, split, starts_with, ends_with, strip_prefix, string_from,
    chars_of, views,
};
use vstd::utf8::encode_utf8;

verus! {

/// `a` joined with `b` as `Path::join` does on Unix: an absolute `b` replaces `a`,
/// an empty `a` gives `b`, and a separator is added unless `a` already ends with one.
pub open spec fn spec_join(a: Seq<char>, b: Seq<char>) -> Seq<char> {
    if b.len() > 0 && b[0] == '/' {
        b
    } else if a.len() == 0 {
        b
    } else if a.last() == '/' {
        a + b
    } else {
        a + seq!['/'] + b
    }
}

/// `base` joined with each segment in turn.
pub open spec fn spec_join_all(base: Seq<char>, segs: Seq<Seq<char>>) -> Seq<char>
    decreases segs.len(),
{
    if segs.len() == 0 {
        base
    } else {
        spec_join(spec_join_all(base, segs.drop_last()), segs.last())
    }
}

/// Joins two paths.
pub fn join_path(a: &str, b: &str) -> (r: String)
    ensures
        r@ == spec_join(a@, b@),
{
    let bl = b.unicode_len();
    if bl > 0 && b.get_char(0) == '/' {
        return b.to_owned();
    }
    let al = a.unicode_len();
    if al == 0 {
        return b.to_owned();
    }
    let mut r = a.to_owned();
    if a.get_char(al - 1) != '/' {
        push_char(&mut r, '/');
    }
    r.append(b);
    r
}

/// Joins `base` with each of `segs` in turn.
pub fn join_all(base: &str, segs: &Vec<String>) -> (r: String)
    ensures
        r@ == spec_join_all(base@, views(segs@)),
{
    let mut r = base.to_owned();
    let mut i: usize = 0;
    while i < segs.len()
        invariant
            i <= segs@.len(),
            r@ == spec_join_all(base@, views(segs@.subrange(0, i as int))),
        decreases segs@.len() - i,
    {
        let ghost before = r@;
        r = join_path(r.as_str(), segs[i].as_str());
        assert(views(segs@.subrange(0, i + 1)).drop_last() =~= views(segs@.subrange(0, i as int)));
        i = i + 1;
    }
    assert(segs@.subrange(0, i as int) =~= segs@);
    r
}

/// A segment holding the feature placeholder.
pub open spec fn is_feature_seg(s: Seq<char>) -> bool {
    has_sub(s, "{{ Feature }}"@) || has_sub(s, "{{Feature}}"@)
}

/// A segment holding the name placeholder.
pub open spec fn is_name_seg(s: Seq<char>) -> bool {
    has_sub(s, "{{ Name }}"@) || has_sub(s, "{{Name}}"@)
}

/// The first feature segment at or after `i` (`segs.len()` if none).
pub open spec fn feature_index(segs: Seq<Seq<char>>, i: int) -> int
    decreases segs.len() - i,
{
    if i >= segs.len() {
        segs.len() as int
    } else if is_feature_seg(segs[i]) {
        i
    } else {
        feature_index(segs, i + 1)
    }
}

/// The first name segment at or after `i` (`segs.len()` if none).
pub open spec fn name_index(segs: Seq<Seq<char>>, i: int) -> int
    decreases segs.len() - i,
{
    if i >= segs.len() {
        segs.len() as int
    } else if is_name_seg(segs[i]) {
        i
    } else {
        name_index(segs, i + 1)
    }
}

/// `seg` with the service and namespace placeholders filled in, in the order
/// `{{ Service }}`, `{{Service}}`, `{{ Namespace }}`, `{{Namespace}}`.
pub open spec fn spec_substitute(seg: Seq<char>, service: Seq<char>, namespace: Seq<char>) -> Seq<
    char,
> {
    spec_replace(
        spec_replace(
            spec_replace(spec_replace(seg, "{{ Service }}"@, service), "{{Service}}"@, service),
            "{{ Namespace }}"@,
            namespace,
        ),
        "{{Namespace}}"@,
        namespace,
    )
}

/// Each segment with its placeholders filled in.
pub open spec fn substitute_all(segs: Seq<Seq<char>>, service: Seq<char>, namespace: Seq<char>) -> Seq<
    Seq<char>,
> {
    segs.map_values(|s: Seq<char>| spec_substitute(s, service, namespace))
}

/// The segments that hold no `{{`, in order.
pub open spec fn static_segments(segs: Seq<Seq<char>>) -> Seq<Seq<char>>
    decreases segs.len(),
{
    if segs.len() == 0 {
        Seq::empty()
    } else {
        let rest = static_segments(segs.drop_last());
        if has_sub(segs.last(), "{{"@) {
            rest
        } else {
            rest.push(segs.last())
        }
    }
}

/// The file-name segment without a leading name placeholder.
pub open spec fn spec_file_suffix(last: Seq<char>) -> Seq<char> {
    match spec_strip_prefix(last, "{{ Name }}"@) {
        Some(t) => t,
        None => match spec_strip_prefix(last, "{{Name}}"@) {
            Some(t) => t,
            None => last,
        },
    }
}

/// What a destination with a feature placeholder says: the segments before the
/// feature segment (placeholders filled in), the placeholder-free segments between
/// the feature segment and the first name segment after it, and the file suffix.
pub open spec fn spec_analyze(destination: Seq<char>, service: Seq<char>, namespace: Seq<char>) -> Option<
    (Seq<Seq<char>>, Seq<Seq<char>>, Seq<char>),
> {
    let segs = spec_split(destination, '/');
    let fi = feature_index(segs, 0);
    if fi >= segs.len() {
        None
    } else {
        let ni = name_index(segs, fi + 1);
        let sub_dirs = if ni < segs.len() {
            static_segments(segs.subrange(fi + 1, ni))
        } else {
            Seq::empty()
        };
        Some(
            (
                substitute_all(segs.subrange(0, fi), service, namespace),
                sub_dirs,
                spec_file_suffix(segs.last()),
            ),
        )
    }
}

/// The parts of a destination that has a feature placeholder.
pub struct FeatureDestination {
    pub prefix_segments: Vec<String>,
    pub sub_dirs: Vec<String>,
    pub file_suffix: String,
}

impl FeatureDestination {
    pub open spec fn view_parts(&self) -> (Seq<Seq<char>>, Seq<Seq<char>>, Seq<char>) {
        (views(self.prefix_segments@), views(self.sub_dirs@), self.file_suffix@)
    }
}

/// Tests whether a segment holds the feature placeholder.
pub fn is_feature_segment(s: &str) -> (r: bool)
    ensures
        r == is_feature_seg(s@),
{
    contains(s, "{{ Feature }}") || contains(s, "{{Feature}}")
}

/// Tests whether a segment holds the name placeholder.
pub fn is_name_segment(s: &str) -> (r: bool)
    ensures
        r == is_name_seg(s@),
{
    contains(s, "{{ Name }}") || contains(s, "{{Name}}")
}

/// Fills the service and namespace placeholders of a segment.
pub fn substitute(seg: &str, service: &str, namespace: &str) -> (r: String)
    ensures
        r@ == spec_substitute(seg@, service@, namespace@),
{
    proof {
        reveal_strlit("{{ Service }}");
        reveal_strlit("{{Service}}");
        reveal_strlit("{{ Namespace }}");
        reveal_strlit("{{Namespace}}");
    }
    let a = replace(seg, "{{ Service }}", service);
    let b = replace(a.as_str(), "{{Service}}", service);
    let c = replace(b.as_str(), "{{ Namespace }}", namespace);
    replace(c.as_str(), "{{Namespace}}", namespace)
}

/// The file-name segment without a leading name placeholder.
pub fn file_suffix(last: &str) -> (r: String)
    ensures
        r@ == spec_file_suffix(last@),
{
    match strip_prefix(last, "{{ Name }}") {
        Some(t) => t,
        None => match strip_prefix(last, "{{Name}}") {
            Some(t) => t,
            None => last.to_owned(),
        },
    }
}

/// Analyses a step destination; `None` when it has no feature placeholder.
pub fn analyze_feature_destination(destination: &str, service: &str, namespace: &str) -> (r:
    Option<FeatureDestination>)
    ensures
        match r {
            Some(d) => spec_analyze(destination@, service@, namespace@) == Some(d.view_parts()),
            None => spec_analyze(destination@, service@, namespace@) is None,
        },
{
    let segs = split(destination, '/');
    let ghost sv = views(segs@);
    assert(sv == spec_split(destination@, '/'));
    // the feature segment
    let mut fi: usize = 0;
    while fi < segs.len() && !is_feature_segment(segs[fi].as_str())
        invariant
            fi <= segs@.len(),
            sv == views(segs@),
            feature_index(sv, 0) == feature_index(sv, fi as int),
        decreases segs@.len() - fi,
    {
        fi = fi + 1;
    }
    if fi >= segs.len() {
        return None;
    }
    assert(feature_index(sv, 0) == fi);
    // the first name segment after it
    let mut ni: usize = fi + 1;
    while ni < segs.len() && !is_name_segment(segs[ni].as_str())
        invariant
            fi < ni <= segs@.len(),
            sv == views(segs@),
            name_index(sv, fi + 1) == name_index(sv, ni as int),
        decreases segs@.len() - ni,
    {
        ni = ni + 1;
    }
    // prefix segments with placeholders filled in
    let mut prefix: Vec<String> = Vec::new();
    let mut i: usize = 0;
    while i < fi
        invariant
            i <= fi < segs@.len(),
            sv == views(segs@),
            views(prefix@) == substitute_all(sv.subrange(0, i as int), service@, namespace@),
        decreases fi - i,
    {
        let s = substitute(segs[i].as_str(), service, namespace);
        assert(sv[i as int] == segs@[i as int]@);
        let ghost before = prefix@;
        prefix.push(s);
        assert(views(prefix@) =~= views(before).push(s@));
        assert(views(prefix@) =~= substitute_all(sv.subrange(0, i + 1), service@, namespace@));
        i = i + 1;
    }
    // placeholder-free segments between the feature and the name segments
    let mut sub_dirs: Vec<String> = Vec::new();
    if ni < segs.len() {
        let mut k: usize = fi + 1;
        while k < ni
            invariant
                fi < k <= ni < segs@.len(),
                sv == views(segs@),
                views(sub_dirs@) == static_segments(sv.subrange(fi + 1, k as int)),
            decreases ni - k,
        {
            assert(sv.subrange(fi + 1, k + 1).drop_last() =~= sv.subrange(fi + 1, k as int));
            if !contains(segs[k].as_str(), "{{") {
                let ghost before = sub_dirs@;
                sub_dirs.push(segs[k].clone());
                assert(views(sub_dirs@) =~= views(before).push(sv[k as int]));
            }
            k = k + 1;
        }
    }
    let last = file_suffix(segs[segs.len() - 1].as_str());
    let d = FeatureDestination { prefix_segments: prefix, sub_dirs, file_suffix: last };
    assert(d.view_parts() == spec_analyze(destination@, service@, namespace@).unwrap());
    Some(d)
}

/// The analysis of the first `render` step whose destination has a feature
/// placeholder, looking at steps `i..`.
pub open spec fn first_feature_step(steps: Seq<TemplateStep>, service: Seq<char>, namespace: Seq<char>, i: int) -> Option<
    (Seq<Seq<char>>, Seq<Seq<char>>, Seq<char>),
>
    decreases steps.len() - i,
{
    if i >= steps.len() {
        None
    } else {
        match render_destination(steps[i].action) {
            Some(d) => match spec_analyze(d, service, namespace) {
                Some(a) => Some(a),
                None => first_feature_step(steps, service, namespace, i + 1),
            },
            None => first_feature_step(steps, service, namespace, i + 1),
        }
    }
}

/// Analyses the first `render` step whose destination has a feature placeholder.
pub fn first_feature_destination(steps: &Vec<TemplateStep>, service: &str, namespace: &str) -> (r:
    Option<FeatureDestination>)
    ensures
        match r {
            Some(d) => first_feature_step(steps@, service@, namespace@, 0) == Some(d.view_parts()),
            None => first_feature_step(steps@, service@, namespace@, 0) is None,
        },
{
    let mut i: usize = 0;
    while i < steps.len()
        invariant
            i <= steps@.len(),
            first_feature_step(steps@, service@, namespace@, 0) == first_feature_step(
                steps@,
                service@,
                namespace@,
                i as int,
            ),
        decreases steps@.len() - i,
    {
        match &steps[i].action {
            TemplateStepAction::Render { destination, .. } => {
                match analyze_feature_destination(destination.as_str(), service, namespace) {
                    Some(d) => {
                        return Some(d);
                    },
                    None => {},
                }
            },
            _ => {},
        }
        i = i + 1;
    }
    None
}

/// A segment such as `{{ Service }}.Presentation.WebApi`: it holds a service
/// placeholder followed by a dot and is longer (in UTF-8 bytes) than `{{ Service }}.`.
pub open spec fn is_service_dot_seg(s: Seq<char>) -> bool {
    (has_sub(s, "{{ Service }}."@) || has_sub(s, "{{Service}}."@)) && (encode_utf8(s).len() as usize)
        > 14
}

/// A segment such as `{{ Namespace }}.Presentation`, longer than `{{ Namespace }}.`.
pub open spec fn is_namespace_dot_seg(s: Seq<char>) -> bool {
    (has_sub(s, "{{ Namespace }}."@) || has_sub(s, "{{Namespace}}."@)) && (encode_utf8(s).len()
        as usize) > 16
}

/// The first service-dot segment at or after `i` (`segs.len()` if none).
pub open spec fn service_dot_index(segs: Seq<Seq<char>>, i: int) -> int
    decreases segs.len() - i,
{
    if i >= segs.len() {
        segs.len() as int
    } else if is_service_dot_seg(segs[i]) {
        i
    } else {
        service_dot_index(segs, i + 1)
    }
}

/// The first namespace-dot segment at or after `i` (`segs.len()` if none).
pub open spec fn namespace_dot_index(segs: Seq<Seq<char>>, i: int) -> int
    decreases segs.len() - i,
{
    if i >= segs.len() {
        segs.len() as int
    } else if is_namespace_dot_seg(segs[i]) {
        i
    } else {
        namespace_dot_index(segs, i + 1)
    }
}

/// What follows the leading placeholder of a segment (empty when it does not start with one).
pub open spec fn after_placeholder(seg: Seq<char>) -> Seq<char> {
    match spec_strip_prefix(seg, "{{ Service }}"@) {
        Some(t) => t,
        None => match spec_strip_prefix(seg, "{{Service}}"@) {
            Some(t) => t,
            None => match spec_strip_prefix(seg, "{{ Namespace }}"@) {
                Some(t) => t,
                None => match spec_strip_prefix(seg, "{{Namespace}}"@) {
                    Some(t) => t,
                    None => Seq::empty(),
                },
            },
        },
    }
}

/// The end (exclusive) of the last `c` in `s[..j]`, 0 if none.
pub open spec fn last_char_end(s: Seq<char>, c: char, j: int) -> int
    decreases j,
{
    if j <= 0 {
        0
    } else if s[j - 1] == c {
        j
    } else {
        last_char_end(s, c, j - 1)
    }
}

/// `suffix` up to and including its last dot, or all of it when it has no dot.
pub open spec fn through_last_dot(suffix: Seq<char>) -> Seq<char> {
    let e = last_char_end(suffix, '.', suffix.len() as int);
    if e > 0 {
        suffix.take(e)
    } else {
        suffix
    }
}

/// For one step's path text: the segments before the presentation-layer segment and
/// the directory-name prefix that layer directories start with.
pub open spec fn spec_presentation_layout(text: Seq<char>, service: Seq<char>, namespace: Seq<char>) -> Option<
    (Seq<Seq<char>>, Seq<char>),
> {
    let segs = spec_split(text, '/');
    let is = service_dot_index(segs, 0);
    let ins = namespace_dot_index(segs, 0);
    let (idx, name) = if is < segs.len() {
        (is, service)
    } else {
        (ins, namespace)
    };
    if idx >= segs.len() {
        None
    } else {
        Some((segs.take(idx), name + through_last_dot(after_placeholder(segs[idx]))))
    }
}

/// The layout of the first step whose path text names a presentation layer, looking at steps `i..`.
pub open spec fn first_presentation_step(steps: Seq<TemplateStep>, service: Seq<char>, namespace: Seq<char>, i: int) -> Option<
    (Seq<Seq<char>>, Seq<char>),
>
    decreases steps.len() - i,
{
    if i >= steps.len() {
        None
    } else {
        match spec_presentation_layout(step_path_text(steps[i].action), service, namespace) {
            Some(l) => Some(l),
            None => first_presentation_step(steps, service, namespace, i + 1),
        }
    }
}

/// Tests a segment for a service placeholder followed by a dot.
fn is_service_dot_segment(s: &str) -> (r: bool)
    ensures
        r == is_service_dot_seg(s@),
{
    (contains(s, "{{ Service }}.") || contains(s, "{{Service}}.")) && s.len() > 14
}

/// Tests a segment for a namespace placeholder followed by a dot.
fn is_namespace_dot_segment(s: &str) -> (r: bool)
    ensures
        r == is_namespace_dot_seg(s@),
{
    (contains(s, "{{ Namespace }}.") || contains(s, "{{Namespace}}.")) && s.len() > 16
}

/// What follows the leading placeholder of a segment.
fn after_placeholder_exec(seg: &str) -> (r: String)
    ensures
        r@ == after_placeholder(seg@),
{
    match strip_prefix(seg, "{{ Service }}") {
        Some(t) => t,
        None => match strip_prefix(seg, "{{Service}}") {
            Some(t) => t,
            None => match strip_prefix(seg, "{{ Namespace }}") {
                Some(t) => t,
                None => match strip_prefix(seg, "{{Namespace}}") {
                    Some(t) => t,
                    None => String::new(),
                },
            },
        },
    }
}

/// `suffix` up to and including its last dot, or all of it.
fn through_last_dot_exec(suffix: &str) -> (r: String)
    ensures
        r@ == through_last_dot(suffix@),
{
    let v = chars_of(suffix);
    let mut j: usize = v.len();
    while j > 0 && v[j - 1] != '.'
        invariant
            j <= v@.len(),
            v@ == suffix@,
            last_char_end(v@, '.', v@.len() as int) == last_char_end(v@, '.', j as int),
        decreases j,
    {
        j = j - 1;
    }
    if j > 0 {
        string_from(v.as_slice(), 0, j)
    } else {
        suffix.to_owned()
    }
}

/// The presentation layout a step's path text gives, if any.
pub fn presentation_layout(text: &str, service: &str, namespace: &str) -> (r: Option<(Vec<String>, String)>)
    ensures
        match r {
            Some((segs, prefix)) => spec_presentation_layout(text@, service@, namespace@) == Some(
                (views(segs@), prefix@),
            ),
            None => spec_presentation_layout(text@, service@, namespace@) is None,
        },
{
    let segs = split(text, '/');
    let ghost sv = views(segs@);
    let mut is: usize = 0;
    while is < segs.len() && !is_service_dot_segment(segs[is].as_str())
        invariant
            is <= segs@.len(),
            sv == views(segs@),
            service_dot_index(sv, 0) == service_dot_index(sv, is as int),
        decreases segs@.len() - is,
    {
        is = is + 1;
    }
    let mut ins: usize = 0;
    while ins < segs.len() && !is_namespace_dot_segment(segs[ins].as_str())
        invariant
            ins <= segs@.len(),
            sv == views(segs@),
            namespace_dot_index(sv, 0) == namespace_dot_index(sv, ins as int),
        decreases segs@.len() - ins,
    {
        ins = ins + 1;
    }
    let (idx, name) = if is < segs.len() {
        (is, service)
    } else {
        (ins, namespace)
    };
    if idx >= segs.len() {
        return None;
    }
    let mut prefix_segs: Vec<String> = Vec::new();
    let mut k: usize = 0;
    while k < idx
        invariant
            k <= idx < segs@.len(),
            sv == views(segs@),
            views(prefix_segs@) == sv.take(k as int),
        decreases idx - k,
    {
        let ghost before = prefix_segs@;
        let c = segs[k].clone();
        assert(sv[k as int] == segs@[k as int]@);
        prefix_segs.push(c);
        assert(views(prefix_segs@) =~= views(before).push(c@));
        assert(views(prefix_segs@) =~= sv.take(k + 1));
        k = k + 1;
    }
    let tail = through_last_dot_exec(after_placeholder_exec(segs[idx].as_str()).as_str());
    let prefix = concat(name, tail.as_str());
    Some((prefix_segs, prefix))
}

/// The presentation layout of the first step whose path text names a presentation layer.
pub fn first_presentation_layout(steps: &Vec<TemplateStep>, service: &str, namespace: &str) -> (r:
    Option<(Vec<String>, String)>)
    ensures
        match r {
            Some((segs, prefix)) => first_presentation_step(steps@, service@, namespace@, 0) == Some(
                (views(segs@), prefix@),
            ),
            None => first_presentation_step(steps@, service@, namespace@, 0) is None,
        },
{
    let mut i: usize = 0;
    while i < steps.len()
        invariant
            i <= steps@.len(),
            first_presentation_step(steps@, service@, namespace@, 0) == first_presentation_step(
                steps@,
                service@,
                namespace@,
                i as int,
            ),
        decreases steps@.len() - i,
    {
        let text = match &steps[i].action {
            TemplateStepAction::Render { destination, .. } => destination,
            TemplateStepAction::RenderIfAbsent { destination, .. } => destination,
            TemplateStepAction::Inject { destination, .. } => destination,
            TemplateStepAction::RunCommand { command, .. } => command,
            TemplateStepAction::RenderFolder { destination, .. } => destination,
        };
        match presentation_layout(text.as_str(), service, namespace) {
            Some(l) => {
                return Some(l);
            },
            None => {},
        }
        i = i + 1;
    }
    None
}

/// The layer name a directory name gives: what follows `prefix`, when it is non-empty.
pub open spec fn spec_layer_name(dir_name: Seq<char>, prefix: Seq<char>) -> Option<Seq<char>> {
    if has_prefix(dir_name, prefix) && dir_name.len() > prefix.len() {
        Some(dir_name.skip(prefix.len() as int))
    } else {
        None
    }
}

/// The layer name of a directory under the presentation root, if it is one.
pub fn layer_name(dir_name: &str, prefix: &str) -> (r: Option<String>)
    ensures
        match r {
            Some(t) => spec_layer_name(dir_name@, prefix@) == Some(t@),
            None => spec_layer_name(dir_name@, prefix@) is None,
        },
{
    match strip_prefix(dir_name, prefix) {
        Some(t) => if t.unicode_len() > 0 {
            Some(t)
        } else {
            None
        },
        None => None,
    }
}

/// The layer names of the directories `names` under the presentation root, in order.
pub open spec fn layers_of(names: Seq<Seq<char>>, prefix: Seq<char>) -> Seq<Seq<char>>
    decreases names.len(),
{
    if names.len() == 0 {
        seq![]
    } else {
        let rest = layers_of(names.drop_last(), prefix);
        match spec_layer_name(names.last(), prefix) {
            Some(t) => rest.push(t),
            None => rest,
        }
    }
}

/// The presentation layers among the directory names under the presentation root:
/// the names that go on past `prefix`, without it.
pub fn presentation_layers(names: &Vec<String>, prefix: &str) -> (r: Vec<String>)
    ensures
        views(r@) == layers_of(views(names@), prefix@),
{
    let mut layers: Vec<String> = Vec::new();
    let mut i: usize = 0;
    while i < names.len()
        invariant
            i <= names@.len(),
            views(layers@) == layers_of(views(names@).take(i as int), prefix@),
        decreases names@.len() - i,
    {
        proof {
            assert(views(names@).take(i as int + 1).drop_last() =~= views(names@).take(i as int));
        }
        match layer_name(names[i].as_str(), prefix) {
            Some(t) => {
                layers.push(t);
                proof {
                    assert(views(layers@) =~= views(layers@).drop_last().push(t@));
                }
            },
            None => {},
        }
        i = i + 1;
    }
    proof {
        assert(views(names@).take(names@.len() as int) =~= views(names@));
    }
    layers
}

/// A file name that starts with the artifact name and ends with the artifact suffix.
pub open spec fn is_artifact_file(file_name: Seq<char>, artifact_name: Seq<char>, suffix: Seq<char>) -> bool {
    has_prefix(file_name, artifact_name) && has_suffix(file_name, suffix)
}

/// Tests whether a file name is that of the artifact.
pub fn artifact_file_matches(file_name: &str, artifact_name: &str, suffix: &str) -> (r: bool)
    ensures
        r == is_artifact_file(file_name@, artifact_name@, suffix@),
{
    starts_with(file_name, artifact_name) && ends_with(file_name, suffix)
}


/// Some name of a directory listing is a file of the artifact.
pub open spec fn holds_artifact(listing: Seq<Seq<char>>, artifact_name: Seq<char>, suffix: Seq<char>) -> bool {
    exists|i: int| 0 <= i < listing.len() && is_artifact_file(#[trigger] listing[i], artifact_name, suffix)
}

/// The features, in the order given, whose artifact directory holds a file of the
/// artifact. Each feature comes with the listing of its artifact directory, or
/// `None` when that is not a directory.
pub open spec fn matching_features(
    features: Seq<(String, Option<Vec<String>>)>,
    artifact_name: Seq<char>,
    suffix: Seq<char>,
) -> Seq<Seq<char>>
    decreases features.len(),
{
    if features.len() == 0 {
        Seq::empty()
    } else {
        let rest = matching_features(features.drop_last(), artifact_name, suffix);
        match features.last().1 {
            Some(listing) => if holds_artifact(views(listing@), artifact_name, suffix) {
                rest.push(features.last().0@)
            } else {
                rest
            },
            None => rest,
        }
    }
}

/// Tests whether a directory listing holds a file of the artifact.
pub fn listing_holds_artifact(listing: &Vec<String>, artifact_name: &str, suffix: &str) -> (r: bool)
    ensures
        r == holds_artifact(views(listing@), artifact_name@, suffix@),
{
    let mut i: usize = 0;
    while i < listing.len()
        invariant
            i <= listing@.len(),
            forall|j: int| 0 <= j < i ==> !is_artifact_file(#[trigger] views(listing@)[j], artifact_name@, suffix@),
        decreases listing@.len() - i,
    {
        if artifact_file_matches(listing[i].as_str(), artifact_name, suffix) {
            assert(is_artifact_file(views(listing@)[i as int], artifact_name@, suffix@));
            return true;
        }
        i = i + 1;
    }
    false
}

/// The names of the features whose artifact directory holds a file of the artifact.
pub fn find_matching_features(
    features: &Vec<(String, Option<Vec<String>>)>,
    artifact_name: &str,
    suffix: &str,
) -> (r: Vec<String>)
    ensures
        views(r@) == matching_features(features@, artifact_name@, suffix@),
{
    let mut r: Vec<String> = Vec::new();
    let mut i: usize = 0;
    while i < features.len()
        invariant
            i <= features@.len(),
            views(r@) == matching_features(features@.take(i as int), artifact_name@, suffix@),
        decreases features@.len() - i,
    {
        let ghost before = r@;
        assert(features@.take(i + 1).drop_last() =~= features@.take(i as int));
        match &features[i].1 {
            Some(listing) => {
                if listing_holds_artifact(listing, artifact_name, suffix) {
                    r.push(features[i].0.clone());
                    assert(views(r@) =~= views(before).push(features@[i as int].0@));
                }
            },
            None => {},
        }
        i = i + 1;
    }
    assert(features@.take(features@.len() as int) =~= features@);
    r
}


/// The listing of a feature entry holds a file of the artifact.
pub open spec fn entry_holds_artifact(
    entry: (String, Option<Vec<String>>),
    artifact_name: Seq<char>,
    suffix: Seq<char>,
) -> bool {
    entry.1 matches Some(listing) && holds_artifact(views(listing@), artifact_name, suffix)
}

/// No two feature entries carry the same name.
pub open spec fn distinct_feature_names(features: Seq<(String, Option<Vec<String>>)>) -> bool {
    forall|i: int, j: int|
        0 <= i < j < features.len() ==> #[trigger] features[i].0@ != #[trigger] features[j].0@
}

/// A name is among the matching features exactly when some entry carries it and the
/// listing of that entry holds a file of the artifact.
pub proof fn law_matching_features_are_those_holding_the_artifact(
    features: Seq<(String, Option<Vec<String>>)>,
    artifact_name: Seq<char>,
    suffix: Seq<char>,
    name: Seq<char>,
)
    ensures
        matching_features(features, artifact_name, suffix).contains(name) <==> exists|i: int|
            0 <= i < features.len() && features[i].0@ == name && entry_holds_artifact(
                #[trigger] features[i],
                artifact_name,
                suffix,
            ),
    decreases features.len(),
{
    if features.len() > 0 {
        let front = features.drop_last();
        let last = features.last();
        let rest = matching_features(front, artifact_name, suffix);
        law_matching_features_are_those_holding_the_artifact(front, artifact_name, suffix, name);
        assert forall|i: int| 0 <= i < front.len() implies #[trigger] front[i] == features[i] by {}
        if exists|i: int|
            0 <= i < features.len() && features[i].0@ == name && entry_holds_artifact(
                #[trigger] features[i],
                artifact_name,
                suffix,
            ) {
            let i = choose|i: int|
                0 <= i < features.len() && features[i].0@ == name && entry_holds_artifact(
                    #[trigger] features[i],
                    artifact_name,
                    suffix,
                );
            if i < front.len() {
                assert(front[i] == features[i]);
                assert(rest.contains(name));
                if entry_holds_artifact(last, artifact_name, suffix) {
                    let k = choose|k: int| 0 <= k < rest.len() && rest[k] == name;
                    assert(rest.push(last.0@)[k] == name);
                }
            } else {
                assert(i == features.len() - 1);
                assert(rest.push(last.0@)[rest.len() as int] == name);
            }
        }
        if matching_features(features, artifact_name, suffix).contains(name) {
            if entry_holds_artifact(last, artifact_name, suffix) {
                let k = choose|k: int| 0 <= k < rest.len() + 1 && rest.push(last.0@)[k] == name;
                if k < rest.len() {
                    assert(rest[k] == name);
                    assert(rest.contains(name));
                    let i = choose|i: int|
                        0 <= i < front.len() && front[i].0@ == name && entry_holds_artifact(
                            #[trigger] front[i],
                            artifact_name,
                            suffix,
                        );
                    assert(features[i] == front[i]);
                } else {
                    assert(features[features.len() - 1] == last);
                }
            } else {
                let i = choose|i: int|
                    0 <= i < front.len() && front[i].0@ == name && entry_holds_artifact(
                        #[trigger] front[i],
                        artifact_name,
                        suffix,
                    );
                assert(features[i] == front[i]);
            }
        }
    }
}

/// When the feature entries carry distinct names, each matching feature is named
/// once.
pub proof fn law_matching_features_are_distinct(
    features: Seq<(String, Option<Vec<String>>)>,
    artifact_name: Seq<char>,
    suffix: Seq<char>,
)
    requires
        distinct_feature_names(features),
    ensures
        matching_features(features, artifact_name, suffix).no_duplicates(),
    decreases features.len(),
{
    if features.len() > 0 {
        let front = features.drop_last();
        let last = features.last();
        let rest = matching_features(front, artifact_name, suffix);
        assert forall|i: int, j: int| 0 <= i < j < front.len() implies #[trigger] front[i].0@
            != #[trigger] front[j].0@ by {
            assert(front[i] == features[i] && front[j] == features[j]);
        }
        law_matching_features_are_distinct(front, artifact_name, suffix);
        if entry_holds_artifact(last, artifact_name, suffix) {
            law_matching_features_are_those_holding_the_artifact(front, artifact_name, suffix, last.0@);
            if rest.contains(last.0@) {
                let i = choose|i: int|
                    0 <= i < front.len() && front[i].0@ == last.0@ && entry_holds_artifact(
                        #[trigger] front[i],
                        artifact_name,
                        suffix,
                    );
                assert(front[i] == features[i]);
                assert(features[i].0@ != features[features.len() - 1].0@);
            }
            let all = rest.push(last.0@);
            assert forall|i: int, j: int| 0 <= i < all.len() && 0 <= j < all.len() && i != j implies all[i]
                != all[j] by {
                if i < rest.len() && j < rest.len() {
                } else if i < rest.len() {
                    assert(rest[i] != last.0@);
                } else {
                    assert(rest[j] != last.0@);
                }
            }
        }
    }
}

/// The features of a features root: its directory names when the root was found
/// and is a directory, and none otherwise.
pub fn features_of_root(root: &Option<String>, root_is_dir: bool, names: Vec<String>) -> (r: Vec<String>)
    ensures
        root is Some && root_is_dir ==> r@ == names@,
        !(root is Some && root_is_dir) ==> r@.len() == 0,
{
    if root.is_some() && root_is_dir {
        names
    } else {
        Vec::new()
    }
}

/// The features whose artifact directory holds a file of the artifact: none when
/// the features root of the artifact was not found or is not a directory, and else
/// those of `listings` (each feature with the listing of its artifact directory)
/// that `matching_features` keeps for the located file suffix.
pub fn features_with_artifact(
    located: &Option<(String, Vec<String>, String)>,
    root_is_dir: bool,
    listings: &Vec<(String, Option<Vec<String>>)>,
    artifact_name: &str,
) -> (r: Vec<String>)
    ensures
        match located {
            Some((_, _, suffix)) => if root_is_dir {
                views(r@) == matching_features(listings@, artifact_name@, suffix@)
            } else {
                r@.len() == 0
            },
            None => r@.len() == 0,
        },
{
    match located {
        Some((_, _, suffix)) => if root_is_dir {
            find_matching_features(listings, artifact_name, suffix.as_str())
        } else {
            Vec::new()
        },
        None => Vec::new(),
    }
}

/// The presentation layers of a service: none when its base template declares no
/// `webapi` generator, when the presentation root was not located or is not a
/// directory; else the layers named by the root's directory names.
pub fn presentation_layers_of(
    webapi_declared: bool,
    located: &Option<(String, String)>,
    root_is_dir: bool,
    names: &Vec<String>,
) -> (r: Vec<String>)
    ensures
        !webapi_declared ==> r@.len() == 0,
        webapi_declared ==> match located {
            Some((_, prefix)) => if root_is_dir {
                views(r@) == layers_of(views(names@), prefix@)
            } else {
                r@.len() == 0
            },
            None => r@.len() == 0,
        },
{
    if !webapi_declared {
        return Vec::new();
    }
    match located {
        Some((_, prefix)) => if root_is_dir {
            presentation_layers(names, prefix.as_str())
        } else {
            Vec::new()
        },
        None => Vec::new(),
    }
}

} // verus!
