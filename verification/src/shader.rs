//! Device kernel source generation.
//!
//! Each backend's compute kernel is produced by substituting fixed
//! placeholder tokens in a kernel template: a per-material switch body
//! for specific heat, conductivity, density and emissivity, each ramp
//! expanded to a chain of piecewise-linear branches, and, for the
//! specialized layouts, compile-time constants describing cell geometry.
//! Property values arrive as already-formatted decimal literals; the
//! text assembly itself is verified, and only the standard library's
//! substring replacement and integer formatting are taken on trust.

use vstd::prelude::*;
use vstd::string::StringExecFns;

verus! {

/// The decimal digits of `n`, most significant first.
pub open spec fn dec_str(n: nat) -> Seq<char>
    decreases n,
{
    if n < 10 {
        seq![digit_char(n)]
    } else {
        dec_str(n / 10) + seq![digit_char(n % 10)]
    }
}

/// The character for one decimal digit.
pub open spec fn digit_char(d: nat) -> char {
    if d == 0 {
        '0'
    } else if d == 1 {
        '1'
    } else if d == 2 {
        '2'
    } else if d == 3 {
        '3'
    } else if d == 4 {
        '4'
    } else if d == 5 {
        '5'
    } else if d == 6 {
        '6'
    } else if d == 7 {
        '7'
    } else if d == 8 {
        '8'
    } else {
        '9'
    }
}

/// Relies on the standard library's decimal formatting of `usize`,
/// which renders exactly the decimal digits, most significant first.
#[verifier::external_body]
pub fn usize_to_string(n: usize) -> (r: String)
    ensures
        r@ == dec_str(n as nat),
{
    format!("{}", n)
}

/// The result of replacing every non-overlapping occurrence of `from`
/// in `s` by `to`, left to right.
pub uninterp spec fn replace_of(s: Seq<char>, from: Seq<char>, to: Seq<char>) -> Seq<char>;

/// Relies on `str::replace`: it replaces all non-overlapping matches of
/// the pattern, left to right, a function of the three texts alone.
#[verifier::external_body]
pub fn replace_in(s: &str, from: &str, to: &str) -> (r: String)
    ensures
        r@ == replace_of(s@, from@, to@),
{
    s.replace(from, to)
}

// ----------------------------------------------------------------------
// Ramp expansion
// ----------------------------------------------------------------------

/// A ramp with its breakpoints already formatted as decimal literals.
#[derive(Debug, Clone)]
pub struct RampText {
    pub pairs: Vec<(String, String)>,
}

/// The formatted breakpoints as sequences of characters.
pub open spec fn ramp_text_view(r: RampText) -> Seq<(Seq<char>, Seq<char>)> {
    Seq::new(r.pairs@.len(), |i: int| (r.pairs@[i].0@, r.pairs@[i].1@))
}

/// The branch for temperatures at or below the first breakpoint.
pub open spec fn spec_clause_first(t: Seq<char>, f: Seq<char>) -> Seq<char> {
    "if (temperature <= "@ + t + ") {\n\t\t\t\treturn "@ + f + ";\n\t\t\t}"@
}

/// The interpolating branch between two breakpoints.
pub open spec fn spec_clause_between(
    tp: Seq<char>,
    fp: Seq<char>,
    t: Seq<char>,
    f: Seq<char>,
) -> Seq<char> {
    " else if (temperature <= "@ + t + ") {\n\t\t\t\treturn "@ + fp + " + ("@ + f + " - "@ + fp
        + ") / ("@ + t + " - "@ + tp + ") * (temperature - "@ + tp + ");\n\t\t\t}"@
}

/// The branch for temperatures past the last breakpoint.
pub open spec fn spec_clause_last(f: Seq<char>) -> Seq<char> {
    " else {\n\t\t\t\treturn "@ + f + ";\n\t\t\t}"@
}

/// The first `k` branches of a multi-breakpoint ramp body.
pub open spec fn spec_ramp_prefix(pairs: Seq<(Seq<char>, Seq<char>)>, k: int) -> Seq<char>
    decreases k,
{
    if k <= 1 {
        spec_clause_first(pairs[0].0, pairs[0].1)
    } else {
        spec_ramp_prefix(pairs, k - 1) + spec_clause_between(
            pairs[k - 2].0,
            pairs[k - 2].1,
            pairs[k - 1].0,
            pairs[k - 1].1,
        )
    }
}

/// The whole body of a ramp lookup function: a constant for a
/// single-breakpoint ramp, otherwise the branch chain closed by the
/// past-the-end branch.
pub open spec fn spec_ramp_body(pairs: Seq<(Seq<char>, Seq<char>)>) -> Seq<char>
    recommends
        pairs.len() >= 1,
{
    if pairs.len() == 1 {
        "return "@ + pairs[0].1 + ";"@
    } else {
        spec_ramp_prefix(pairs, pairs.len() as int) + spec_clause_last(pairs[pairs.len() - 1].1)
    }
}

/// Expands a ramp into the body of a piecewise-linear lookup function.
pub fn ramp_to_body(ramp: &RampText) -> (r: String)
    requires
        ramp.pairs@.len() >= 1,
    ensures
        r@ == spec_ramp_body(ramp_text_view(*ramp)),
{
    let ghost pairs = ramp_text_view(*ramp);
    let mut body = String::new();
    let n = ramp.pairs.len();
    if n == 1 {
        body.append("return ");
        body.append(ramp.pairs[0].1.as_str());
        body.append(";");
        proof {
            assert(body@ =~= spec_ramp_body(pairs));
        }
        return body;
    }
    body.append("if (temperature <= ");
    body.append(ramp.pairs[0].0.as_str());
    body.append(") {\n\t\t\t\treturn ");
    body.append(ramp.pairs[0].1.as_str());
    body.append(";\n\t\t\t}");
    proof {
        assert(body@ =~= spec_ramp_prefix(pairs, 1));
    }
    let mut i: usize = 1;
    while i < n
        invariant
            1 <= i <= n,
            n == ramp.pairs@.len(),
            n >= 2,
            pairs == ramp_text_view(*ramp),
            body@ == spec_ramp_prefix(pairs, i as int),
        decreases n - i,
    {
        body.append(" else if (temperature <= ");
        body.append(ramp.pairs[i].0.as_str());
        body.append(") {\n\t\t\t\treturn ");
        body.append(ramp.pairs[i - 1].1.as_str());
        body.append(" + (");
        body.append(ramp.pairs[i].1.as_str());
        body.append(" - ");
        body.append(ramp.pairs[i - 1].1.as_str());
        body.append(") / (");
        body.append(ramp.pairs[i].0.as_str());
        body.append(" - ");
        body.append(ramp.pairs[i - 1].0.as_str());
        body.append(") * (temperature - ");
        body.append(ramp.pairs[i - 1].0.as_str());
        body.append(");\n\t\t\t}");
        proof {
            assert(body@ =~= spec_ramp_prefix(pairs, i + 1));
        }
        i += 1;
    }
    body.append(" else {\n\t\t\t\treturn ");
    body.append(ramp.pairs[n - 1].1.as_str());
    body.append(";\n\t\t\t}");
    proof {
        assert(body@ =~= spec_ramp_body(pairs));
    }
    body
}

// ----------------------------------------------------------------------
// Material switch bodies
// ----------------------------------------------------------------------

/// A material with all property values already formatted as decimal
/// literals.
#[derive(Debug, Clone)]
pub struct MaterialText {
    pub specific_heat: RampText,
    pub conductivity: RampText,
    pub density: String,
    pub emissivity: String,
}

impl MaterialText {
    /// Both ramps have at least one breakpoint.
    pub open spec fn wf(self) -> bool {
        &&& self.specific_heat.pairs@.len() >= 1
        &&& self.conductivity.pairs@.len() >= 1
    }
}

/// One case of a material switch: material 0 is the default case.
pub open spec fn spec_case_wrap(id: nat, inner: Seq<char>) -> Seq<char> {
    if id == 0 {
        "\t\tdefault: {\n\t\t\t"@ + inner + "\n\t\t}"@
    } else {
        "\t\tcase "@ + dec_str(id) + "u: {\n\t\t\t"@ + inner + "\n\t\t}"@
    }
}

/// The first `k` cases of a material switch.
pub open spec fn spec_switch_cases(items: Seq<Seq<char>>, k: int) -> Seq<char>
    decreases k,
{
    if k <= 0 {
        Seq::empty()
    } else {
        spec_switch_cases(items, k - 1) + spec_case_wrap((k - 1) as nat, items[k - 1])
    }
}

/// A whole material switch over the given per-material bodies.
pub open spec fn spec_switch_body(items: Seq<Seq<char>>) -> Seq<char> {
    "switch id {\n"@ + spec_switch_cases(items, items.len() as int) + "\n\t}"@
}

/// The body returning a constant property value.
pub open spec fn spec_scalar_inner(v: Seq<char>) -> Seq<char> {
    "return "@ + v + ";"@
}

/// The per-material specific heat bodies.
pub open spec fn spec_heat_items(ms: Seq<MaterialText>) -> Seq<Seq<char>> {
    Seq::new(ms.len(), |i: int| spec_ramp_body(ramp_text_view(ms[i].specific_heat)))
}

/// The per-material conductivity bodies.
pub open spec fn spec_conductivity_items(ms: Seq<MaterialText>) -> Seq<Seq<char>> {
    Seq::new(ms.len(), |i: int| spec_ramp_body(ramp_text_view(ms[i].conductivity)))
}

/// The per-material density bodies.
pub open spec fn spec_density_items(ms: Seq<MaterialText>) -> Seq<Seq<char>> {
    Seq::new(ms.len(), |i: int| spec_scalar_inner(ms[i].density@))
}

/// The per-material emissivity bodies.
pub open spec fn spec_emissivity_items(ms: Seq<MaterialText>) -> Seq<Seq<char>> {
    Seq::new(ms.len(), |i: int| spec_scalar_inner(ms[i].emissivity@))
}

/// What `insert_material_data` substitutes into the template: one
/// switch per property, in the template's four placeholder tokens.
pub open spec fn spec_material_shader(shader: Seq<char>, ms: Seq<MaterialText>) -> Seq<char> {
    replace_of(
        replace_of(
            replace_of(
                replace_of(shader, "//! specific_heat"@, spec_switch_body(spec_heat_items(ms))),
                "//! conductivity"@,
                spec_switch_body(spec_conductivity_items(ms)),
            ),
            "//! density"@,
            spec_switch_body(spec_density_items(ms)),
        ),
        "//! emissivity"@,
        spec_switch_body(spec_emissivity_items(ms)),
    )
}

/// The character sequences of a list of strings.
pub open spec fn strings_view(items: Seq<String>) -> Seq<Seq<char>> {
    Seq::new(items.len(), |i: int| items[i]@)
}

/// Builds one whole material switch over the given per-material bodies.
pub fn switch_body(items: &Vec<String>) -> (r: String)
    ensures
        r@ == spec_switch_body(strings_view(items@)),
{
    let mut body = String::from_str("switch id {\n");
    let n = items.len();
    let mut id: usize = 0;
    proof {
        assert(spec_switch_cases(strings_view(items@), 0).len() == 0);
        assert(body@ =~= "switch id {\n"@ + spec_switch_cases(strings_view(items@), 0));
    }
    while id < n
        invariant
            0 <= id <= n,
            n == items@.len(),
            body@ == "switch id {\n"@ + spec_switch_cases(strings_view(items@), id as int),
        decreases n - id,
    {
        if id == 0 {
            body.append("\t\tdefault: {\n\t\t\t");
            body.append(items[0].as_str());
            body.append("\n\t\t}");
        } else {
            let id_text = usize_to_string(id);
            body.append("\t\tcase ");
            body.append(id_text.as_str());
            body.append("u: {\n\t\t\t");
            body.append(items[id].as_str());
            body.append("\n\t\t}");
        }
        proof {
            assert(body@ =~= "switch id {\n"@ + spec_switch_cases(strings_view(items@), id + 1));
        }
        id += 1;
    }
    body.append("\n\t}");
    proof {
        assert(body@ =~= spec_switch_body(strings_view(items@)));
    }
    body
}

/// The body returning a constant property value.
pub fn scalar_inner(v: &str) -> (r: String)
    ensures
        r@ == spec_scalar_inner(v@),
{
    let mut body = String::from_str("return ");
    body.append(v);
    body.append(";");
    proof {
        assert(body@ =~= spec_scalar_inner(v@));
    }
    body
}

/// Substitutes the per-material property switches into a kernel
/// template's placeholder tokens.
pub fn insert_material_data(shader: &str, materials: &Vec<MaterialText>) -> (r: String)
    requires
        forall|i: int| 0 <= i < materials@.len() ==> (#[trigger] materials@[i]).wf(),
    ensures
        r@ == spec_material_shader(shader@, materials@),
{
    let n = materials.len();
    let mut heat_inners: Vec<String> = Vec::new();
    let mut conductivity_inners: Vec<String> = Vec::new();
    let mut density_inners: Vec<String> = Vec::new();
    let mut emissivity_inners: Vec<String> = Vec::new();
    let mut id: usize = 0;
    while id < n
        invariant
            0 <= id <= n,
            n == materials@.len(),
            forall|i: int| 0 <= i < materials@.len() ==> (#[trigger] materials@[i]).wf(),
            heat_inners@.len() == id,
            conductivity_inners@.len() == id,
            density_inners@.len() == id,
            emissivity_inners@.len() == id,
            forall|i: int|
                0 <= i < id ==> (#[trigger] heat_inners@[i])@ == spec_heat_items(materials@)[i],
            forall|i: int|
                0 <= i < id ==> (#[trigger] conductivity_inners@[i])@ == spec_conductivity_items(
                    materials@,
                )[i],
            forall|i: int|
                0 <= i < id ==> (#[trigger] density_inners@[i])@ == spec_density_items(
                    materials@,
                )[i],
            forall|i: int|
                0 <= i < id ==> (#[trigger] emissivity_inners@[i])@ == spec_emissivity_items(
                    materials@,
                )[i],
        decreases n - id,
    {
        let material = &materials[id];
        heat_inners.push(ramp_to_body(&material.specific_heat));
        conductivity_inners.push(ramp_to_body(&material.conductivity));
        density_inners.push(scalar_inner(material.density.as_str()));
        emissivity_inners.push(scalar_inner(material.emissivity.as_str()));
        id += 1;
    }
    let heat_body = switch_body(&heat_inners);
    let conductivity_body = switch_body(&conductivity_inners);
    let density_body = switch_body(&density_inners);
    let emissivity_body = switch_body(&emissivity_inners);
    proof {
        assert(strings_view(heat_inners@) =~= spec_heat_items(materials@));
        assert(strings_view(conductivity_inners@) =~= spec_conductivity_items(materials@));
        assert(strings_view(density_inners@) =~= spec_density_items(materials@));
        assert(strings_view(emissivity_inners@) =~= spec_emissivity_items(materials@));
    }
    let step1 = replace_in(shader, "//! specific_heat", heat_body.as_str());
    let step2 = replace_in(step1.as_str(), "//! conductivity", conductivity_body.as_str());
    let step3 = replace_in(step2.as_str(), "//! density", density_body.as_str());
    let step4 = replace_in(step3.as_str(), "//! emissivity", emissivity_body.as_str());
    step4
}

// ----------------------------------------------------------------------
// Geometry constants for the specialized layouts
// ----------------------------------------------------------------------

/// The first `k` formatted cell sizes, each followed by a separator.
pub open spec fn spec_size_list(items: Seq<Seq<char>>, k: int) -> Seq<char>
    decreases k,
{
    if k <= 0 {
        Seq::empty()
    } else {
        spec_size_list(items, k - 1) + items[k - 1] + ", "@
    }
}

/// The first `k` material indices, each as a `u32` literal followed by
/// a separator.
pub open spec fn spec_material_list(items: Seq<u32>, k: int) -> Seq<char>
    decreases k,
{
    if k <= 0 {
        Seq::empty()
    } else {
        spec_material_list(items, k - 1) + dec_str(items[k - 1] as nat) + "u, "@
    }
}

/// What `insert_gpu_m2_data` substitutes: the cell count, the cell-size
/// array and the material-index array of one run's shared geometry.
pub open spec fn spec_m2_shader(shader: Seq<char>, sizes: Seq<Seq<char>>, materials: Seq<u32>) -> Seq<
    char,
> {
    let len_text = "const CELL_LENGTH = "@ + dec_str(sizes.len()) + "u;\n const N = "@ + dec_str(
        (sizes.len() - 2) as nat,
    ) + "u; //"@;
    let sizes_text = "var<private> cell_sizes: array<f32, CELL_LENGTH> = array<f32, CELL_LENGTH>("@
        + spec_size_list(sizes, sizes.len() as int) + "); //"@;
    let materials_text =
        "var<private> cell_materials: array<u32, CELL_LENGTH> = array<u32, CELL_LENGTH>("@
        + spec_material_list(materials, materials.len() as int) + "); //"@;
    replace_of(
        replace_of(
            replace_of(shader, "//! cell_length\n"@, len_text),
            "//! cell_sizes\n"@,
            sizes_text,
        ),
        "//! cell_materials\n"@,
        materials_text,
    )
}

/// The formatted cell sizes as sequences of characters.
pub open spec fn sizes_view(sizes: Seq<String>) -> Seq<Seq<char>> {
    Seq::new(sizes.len(), |i: int| sizes[i]@)
}

/// Substitutes one run's cell geometry into a kernel template: the cell
/// count and interior size as compile-time constants, and the cell
/// sizes and material indices as array literals. Sizes arrive already
/// formatted as decimal literals.
pub fn insert_gpu_m2_data(shader: &str, sizes: &Vec<String>, materials: &Vec<u32>) -> (r: String)
    requires
        sizes@.len() >= 2,
    ensures
        r@ == spec_m2_shader(shader@, sizes_view(sizes@), materials@),
{
    let cell_length = sizes.len();
    let mut len_text = String::from_str("const CELL_LENGTH = ");
    let length_str = usize_to_string(cell_length);
    len_text.append(length_str.as_str());
    len_text.append("u;\n const N = ");
    let interior_str = usize_to_string(cell_length - 2);
    len_text.append(interior_str.as_str());
    len_text.append("u; //");
    let mut sizes_text = String::from_str(
        "var<private> cell_sizes: array<f32, CELL_LENGTH> = array<f32, CELL_LENGTH>(",
    );
    let mut i: usize = 0;
    proof {
        assert(spec_size_list(sizes_view(sizes@), 0).len() == 0);
        assert(sizes_text@ =~= "var<private> cell_sizes: array<f32, CELL_LENGTH> = array<f32, CELL_LENGTH>("@
            + spec_size_list(sizes_view(sizes@), 0));
    }
    while i < cell_length
        invariant
            0 <= i <= cell_length,
            cell_length == sizes@.len(),
            sizes_text@ == "var<private> cell_sizes: array<f32, CELL_LENGTH> = array<f32, CELL_LENGTH>("@
                + spec_size_list(sizes_view(sizes@), i as int),
        decreases cell_length - i,
    {
        sizes_text.append(sizes[i].as_str());
        sizes_text.append(", ");
        proof {
            assert(sizes_text@ =~= "var<private> cell_sizes: array<f32, CELL_LENGTH> = array<f32, CELL_LENGTH>("@
                + spec_size_list(sizes_view(sizes@), i + 1));
        }
        i += 1;
    }
    sizes_text.append("); //");
    let mut materials_text = String::from_str(
        "var<private> cell_materials: array<u32, CELL_LENGTH> = array<u32, CELL_LENGTH>(",
    );
    let m = materials.len();
    let mut j: usize = 0;
    proof {
        assert(spec_material_list(materials@, 0).len() == 0);
        assert(materials_text@ =~= "var<private> cell_materials: array<u32, CELL_LENGTH> = array<u32, CELL_LENGTH>("@
            + spec_material_list(materials@, 0));
    }
    while j < m
        invariant
            0 <= j <= m,
            m == materials@.len(),
            materials_text@ == "var<private> cell_materials: array<u32, CELL_LENGTH> = array<u32, CELL_LENGTH>("@
                + spec_material_list(materials@, j as int),
        decreases m - j,
    {
        let id_text = usize_to_string(materials[j] as usize);
        proof {
            assert(materials@[j as int] as nat == materials@[j as int] as usize as nat);
        }
        materials_text.append(id_text.as_str());
        materials_text.append("u, ");
        proof {
            assert(materials_text@ =~= "var<private> cell_materials: array<u32, CELL_LENGTH> = array<u32, CELL_LENGTH>("@
                + spec_material_list(materials@, j + 1));
        }
        j += 1;
    }
    materials_text.append("); //");
    let step1 = replace_in(shader, "//! cell_length\n", len_text.as_str());
    let step2 = replace_in(step1.as_str(), "//! cell_sizes\n", sizes_text.as_str());
    let step3 = replace_in(step2.as_str(), "//! cell_materials\n", materials_text.as_str());
    step3
}

/// What `insert_gpu_m3_data` substitutes: the padded cell count and the
/// interior size shared by every element in the padded layout.
pub open spec fn spec_m3_shader(shader: Seq<char>, max_cell_count: nat) -> Seq<char> {
    let text = "const MAX_CELL_COUNT = "@ + dec_str(max_cell_count) + "u;\n const N = "@ + dec_str(
        (max_cell_count - 2) as nat,
    ) + "u; //"@;
    replace_of(shader, "//! max_cell_count\n"@, text)
}

/// Substitutes the padded cell count into a kernel template.
pub fn insert_gpu_m3_data(shader: &str, max_cell_count: usize) -> (r: String)
    requires
        max_cell_count >= 2,
    ensures
        r@ == spec_m3_shader(shader@, max_cell_count as nat),
{
    let mut text = String::from_str("const MAX_CELL_COUNT = ");
    let count_str = usize_to_string(max_cell_count);
    text.append(count_str.as_str());
    text.append("u;\n const N = ");
    let interior_str = usize_to_string(max_cell_count - 2);
    text.append(interior_str.as_str());
    text.append("u; //");
    replace_in(shader, "//! max_cell_count\n", text.as_str())
}

} // verus!
