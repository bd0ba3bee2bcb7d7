//! The typed pod manifest: the root `PodTask` and its parts, together with
//! a "raw" form in which every field is optional.
//!
//! The raw form is what a structured key/value document decodes to before
//! any schema rule has been applied: a field that the document does not
//! mention is `None`.  [`PodTask::from_raw`] applies the schema — required
//! fields must be present, optional ones default to empty — and
//! [`PodTask::to_raw`] is the canonical serialization, of which parsing is
//! proved to be a left inverse.

use vstd::prelude::*;

use crate::errors::ParseError;

verus! {

/// One declared container port.
#[derive(Debug, Clone, PartialEq, Eq)]
pub struct Port {
    pub container_port: i32,
}

impl View for Port {
    type V = i32;

    open spec fn view(&self) -> i32 {
        self.container_port
    }
}

impl DeepView for Port {
    type V = i32;

    open spec fn deep_view(&self) -> i32 {
        self.container_port
    }
}

/// One container of the pod: a name, an image reference and its declared
/// ports, in declaration order.
#[derive(Debug, Clone, PartialEq, Eq)]
pub struct ContainerSpec {
    pub name: String,
    pub image: String,
    pub ports: Vec<Port>,
}

/// The abstract value of a [`ContainerSpec`].
#[verifier::ext_equal]
pub struct ContainerSpecView {
    pub name: Seq<char>,
    pub image: Seq<char>,
    pub ports: Seq<i32>,
}

impl View for ContainerSpec {
    type V = ContainerSpecView;

    open spec fn view(&self) -> ContainerSpecView {
        ContainerSpecView {
            name: self.name@,
            image: self.image@,
            ports: self.ports.deep_view(),
        }
    }
}

impl DeepView for ContainerSpec {
    type V = ContainerSpecView;

    open spec fn deep_view(&self) -> ContainerSpecView {
        self.view()
    }
}

/// Pod metadata: a name and namespace plus label and annotation pairs.
///
/// The pairs stand for unordered key/value maps with unique keys; they are
/// copied verbatim into every request the builder produces.
#[derive(Debug, Clone, PartialEq, Eq)]
pub struct ObjectMeta {
    pub name: String,
    pub namespace: String,
    pub labels: Vec<(String, String)>,
    pub annotations: Vec<(String, String)>,
}

/// The abstract value of an [`ObjectMeta`].
#[verifier::ext_equal]
pub struct ObjectMetaView {
    pub name: Seq<char>,
    pub namespace: Seq<char>,
    pub labels: Seq<(Seq<char>, Seq<char>)>,
    pub annotations: Seq<(Seq<char>, Seq<char>)>,
}

impl View for ObjectMeta {
    type V = ObjectMetaView;

    open spec fn view(&self) -> ObjectMetaView {
        ObjectMetaView {
            name: self.name@,
            namespace: self.namespace@,
            labels: self.labels.deep_view(),
            annotations: self.annotations.deep_view(),
        }
    }
}

impl DeepView for ObjectMeta {
    type V = ObjectMetaView;

    open spec fn deep_view(&self) -> ObjectMetaView {
        self.view()
    }
}

/// The pod's desired containers.  `init_containers` is parsed but never
/// scheduled: executing init containers is out of scope by design.
#[derive(Debug, Clone, PartialEq, Eq)]
pub struct PodSpec {
    pub containers: Vec<ContainerSpec>,
    pub init_containers: Vec<ContainerSpec>,
}

/// The abstract value of a [`PodSpec`].
#[verifier::ext_equal]
pub struct PodSpecView {
    pub containers: Seq<ContainerSpecView>,
    pub init_containers: Seq<ContainerSpecView>,
}

impl View for PodSpec {
    type V = PodSpecView;

    open spec fn view(&self) -> PodSpecView {
        PodSpecView {
            containers: self.containers.deep_view(),
            init_containers: self.init_containers.deep_view(),
        }
    }
}

impl DeepView for PodSpec {
    type V = PodSpecView;

    open spec fn deep_view(&self) -> PodSpecView {
        self.view()
    }
}

/// The root of a parsed manifest.  Immutable once loaded; one run owns it
/// for its whole duration.
#[derive(Debug, Clone, PartialEq, Eq)]
pub struct PodTask {
    pub api_version: String,
    pub kind: String,
    pub metadata: ObjectMeta,
    pub spec: PodSpec,
}

/// The abstract value of a [`PodTask`].
#[verifier::ext_equal]
pub struct PodTaskView {
    pub api_version: Seq<char>,
    pub kind: Seq<char>,
    pub metadata: ObjectMetaView,
    pub spec: PodSpecView,
}

impl View for PodTask {
    type V = PodTaskView;

    open spec fn view(&self) -> PodTaskView {
        PodTaskView {
            api_version: self.api_version@,
            kind: self.kind@,
            metadata: self.metadata@,
            spec: self.spec@,
        }
    }
}

impl DeepView for PodTask {
    type V = PodTaskView;

    open spec fn deep_view(&self) -> PodTaskView {
        self.view()
    }
}

/// The raw form of a port entry: the declared port, if the document gave
/// one.
#[derive(Debug, Clone, Copy, PartialEq, Eq)]
pub struct RawPort {
    pub container_port: Option<i32>,
}

impl View for RawPort {
    type V = Option<i32>;

    open spec fn view(&self) -> Option<i32> {
        self.container_port
    }
}

impl DeepView for RawPort {
    type V = Option<i32>;

    open spec fn deep_view(&self) -> Option<i32> {
        self.container_port
    }
}

/// The raw form of a container spec: every field as the document gave
/// it, or `None` where the document is silent.
#[derive(Debug, Clone, PartialEq, Eq)]
pub struct RawContainerSpec {
    pub name: Option<String>,
    pub image: Option<String>,
    pub ports: Option<Vec<RawPort>>,
}

/// The abstract value of a [`RawContainerSpec`].
#[verifier::ext_equal]
pub struct RawContainerSpecView {
    pub name: Option<Seq<char>>,
    pub image: Option<Seq<char>>,
    pub ports: Option<Seq<Option<i32>>>,
}

impl View for RawContainerSpec {
    type V = RawContainerSpecView;

    open spec fn view(&self) -> RawContainerSpecView {
        RawContainerSpecView {
            name: self.name.deep_view(),
            image: self.image.deep_view(),
            ports: self.ports.deep_view(),
        }
    }
}

impl DeepView for RawContainerSpec {
    type V = RawContainerSpecView;

    open spec fn deep_view(&self) -> RawContainerSpecView {
        self.view()
    }
}

/// The raw form of the pod metadata.
#[derive(Debug, Clone, PartialEq, Eq)]
pub struct RawObjectMeta {
    pub name: Option<String>,
    pub namespace: Option<String>,
    pub labels: Option<Vec<(String, String)>>,
    pub annotations: Option<Vec<(String, String)>>,
}

/// The abstract value of a [`RawObjectMeta`].
#[verifier::ext_equal]
pub struct RawObjectMetaView {
    pub name: Option<Seq<char>>,
    pub namespace: Option<Seq<char>>,
    pub labels: Option<Seq<(Seq<char>, Seq<char>)>>,
    pub annotations: Option<Seq<(Seq<char>, Seq<char>)>>,
}

impl View for RawObjectMeta {
    type V = RawObjectMetaView;

    open spec fn view(&self) -> RawObjectMetaView {
        RawObjectMetaView {
            name: self.name.deep_view(),
            namespace: self.namespace.deep_view(),
            labels: self.labels.deep_view(),
            annotations: self.annotations.deep_view(),
        }
    }
}

impl DeepView for RawObjectMeta {
    type V = RawObjectMetaView;

    open spec fn deep_view(&self) -> RawObjectMetaView {
        self.view()
    }
}

/// The raw form of the pod spec.
#[derive(Debug, Clone, PartialEq, Eq)]
pub struct RawPodSpec {
    pub containers: Option<Vec<RawContainerSpec>>,
    pub init_containers: Option<Vec<RawContainerSpec>>,
}

/// The abstract value of a [`RawPodSpec`].
#[verifier::ext_equal]
pub struct RawPodSpecView {
    pub containers: Option<Seq<RawContainerSpecView>>,
    pub init_containers: Option<Seq<RawContainerSpecView>>,
}

impl View for RawPodSpec {
    type V = RawPodSpecView;

    open spec fn view(&self) -> RawPodSpecView {
        RawPodSpecView {
            containers: self.containers.deep_view(),
            init_containers: self.init_containers.deep_view(),
        }
    }
}

impl DeepView for RawPodSpec {
    type V = RawPodSpecView;

    open spec fn deep_view(&self) -> RawPodSpecView {
        self.view()
    }
}

/// The raw form of a whole manifest document, before any schema rule has
/// been applied.
#[derive(Debug, Clone, PartialEq, Eq)]
pub struct RawPodTask {
    pub api_version: Option<String>,
    pub kind: Option<String>,
    pub metadata: Option<RawObjectMeta>,
    pub spec: Option<RawPodSpec>,
}

/// The abstract value of a [`RawPodTask`].
#[verifier::ext_equal]
pub struct RawPodTaskView {
    pub api_version: Option<Seq<char>>,
    pub kind: Option<Seq<char>>,
    pub metadata: Option<RawObjectMetaView>,
    pub spec: Option<RawPodSpecView>,
}

impl View for RawPodTask {
    type V = RawPodTaskView;

    open spec fn view(&self) -> RawPodTaskView {
        RawPodTaskView {
            api_version: self.api_version.deep_view(),
            kind: self.kind.deep_view(),
            metadata: self.metadata.deep_view(),
            spec: self.spec.deep_view(),
        }
    }
}

impl DeepView for RawPodTask {
    type V = RawPodTaskView;

    open spec fn deep_view(&self) -> RawPodTaskView {
        self.view()
    }
}

/// The sequence an optional list of the document stands for: an absent
/// list defaults to an empty one, not to an error.
pub open spec fn or_empty<A>(o: Option<Seq<A>>) -> Seq<A> {
    match o {
        Some(s) => s,
        None => Seq::empty(),
    }
}

/// What one raw port entry parses to: its port, required.
pub open spec fn parse_port(r: Option<i32>) -> Result<i32, ParseError> {
    match r {
        Some(p) => Ok(p),
        None => Err(ParseError::MissingField),
    }
}

/// What a raw port list parses to: every entry, in order, or the first
/// failure.
pub open spec fn parse_ports(rs: Seq<Option<i32>>) -> Result<Seq<i32>, ParseError>
    decreases rs.len(),
{
    if rs.len() == 0 {
        Ok(Seq::empty())
    } else {
        match parse_ports(rs.drop_last()) {
            Ok(init) => match parse_port(rs.last()) {
                Ok(p) => Ok(init.push(p)),
                Err(e) => Err(e),
            },
            Err(e) => Err(e),
        }
    }
}

/// What one raw container spec parses to: name and image are required,
/// the port list defaults to empty.
pub open spec fn parse_container(r: RawContainerSpecView) -> Result<ContainerSpecView, ParseError> {
    if r.name is None || r.image is None {
        Err(ParseError::MissingField)
    } else {
        match parse_ports(or_empty(r.ports)) {
            Ok(ps) => Ok(ContainerSpecView { name: r.name->0, image: r.image->0, ports: ps }),
            Err(e) => Err(e),
        }
    }
}

/// What a raw container list parses to: every entry, in order, or the
/// first failure.
pub open spec fn parse_containers(rs: Seq<RawContainerSpecView>) -> Result<
    Seq<ContainerSpecView>,
    ParseError,
>
    decreases rs.len(),
{
    if rs.len() == 0 {
        Ok(Seq::empty())
    } else {
        match parse_containers(rs.drop_last()) {
            Ok(init) => match parse_container(rs.last()) {
                Ok(c) => Ok(init.push(c)),
                Err(e) => Err(e),
            },
            Err(e) => Err(e),
        }
    }
}

/// What the raw metadata parses to: name and namespace are required,
/// labels and annotations default to empty.
pub open spec fn parse_meta(r: RawObjectMetaView) -> Result<ObjectMetaView, ParseError> {
    if r.name is None || r.namespace is None {
        Err(ParseError::MissingField)
    } else {
        Ok(
            ObjectMetaView {
                name: r.name->0,
                namespace: r.namespace->0,
                labels: or_empty(r.labels),
                annotations: or_empty(r.annotations),
            },
        )
    }
}

/// What the raw pod spec parses to: both container lists default to
/// empty.
pub open spec fn parse_pod_spec(r: RawPodSpecView) -> Result<PodSpecView, ParseError> {
    match parse_containers(or_empty(r.containers)) {
        Ok(cs) => match parse_containers(or_empty(r.init_containers)) {
            Ok(ics) => Ok(PodSpecView { containers: cs, init_containers: ics }),
            Err(e) => Err(e),
        },
        Err(e) => Err(e),
    }
}

/// What a whole raw document parses to.  The four top-level fields are
/// required; inside them the schema of the parts applies.
pub open spec fn parse_task(r: RawPodTaskView) -> Result<PodTaskView, ParseError> {
    if r.api_version is None || r.kind is None || r.metadata is None || r.spec is None {
        Err(ParseError::MissingField)
    } else {
        match parse_meta(r.metadata->0) {
            Ok(m) => match parse_pod_spec(r.spec->0) {
                Ok(s) => Ok(
                    PodTaskView {
                        api_version: r.api_version->0,
                        kind: r.kind->0,
                        metadata: m,
                        spec: s,
                    },
                ),
                Err(e) => Err(e),
            },
            Err(e) => Err(e),
        }
    }
}

/// The canonical raw form of a port list.
pub open spec fn raw_of_ports(ps: Seq<i32>) -> Seq<Option<i32>> {
    ps.map_values(|p: i32| Some(p))
}

/// The canonical raw form of one container spec.
pub open spec fn raw_of_container(c: ContainerSpecView) -> RawContainerSpecView {
    RawContainerSpecView { name: Some(c.name), image: Some(c.image), ports: Some(raw_of_ports(c.ports)) }
}

/// The canonical raw form of a container list.
pub open spec fn raw_of_containers(cs: Seq<ContainerSpecView>) -> Seq<RawContainerSpecView> {
    cs.map_values(|c: ContainerSpecView| raw_of_container(c))
}

/// The canonical raw form of the metadata.
pub open spec fn raw_of_meta(m: ObjectMetaView) -> RawObjectMetaView {
    RawObjectMetaView {
        name: Some(m.name),
        namespace: Some(m.namespace),
        labels: Some(m.labels),
        annotations: Some(m.annotations),
    }
}

/// The canonical raw form of the pod spec.
pub open spec fn raw_of_spec(s: PodSpecView) -> RawPodSpecView {
    RawPodSpecView {
        containers: Some(raw_of_containers(s.containers)),
        init_containers: Some(raw_of_containers(s.init_containers)),
    }
}

/// The canonical raw form of a whole task: every field present.
pub open spec fn raw_of_task(t: PodTaskView) -> RawPodTaskView {
    RawPodTaskView {
        api_version: Some(t.api_version),
        kind: Some(t.kind),
        metadata: Some(raw_of_meta(t.metadata)),
        spec: Some(raw_of_spec(t.spec)),
    }
}

/// A canonical port list parses back to itself.
proof fn lemma_parse_ports_of_raw(ps: Seq<i32>)
    ensures
        parse_ports(raw_of_ports(ps)) == Ok::<Seq<i32>, ParseError>(ps),
    decreases ps.len(),
{
    if ps.len() == 0 {
        assert(raw_of_ports(ps).len() == 0);
        assert(ps =~= Seq::<i32>::empty());
    } else {
        lemma_parse_ports_of_raw(ps.drop_last());
        assert(raw_of_ports(ps).drop_last() =~= raw_of_ports(ps.drop_last()));
        assert(raw_of_ports(ps).last() == Some(ps.last()));
        assert(ps.drop_last().push(ps.last()) =~= ps);
    }
}

/// A canonical container spec parses back to itself.
proof fn lemma_parse_container_of_raw(c: ContainerSpecView)
    ensures
        parse_container(raw_of_container(c)) == Ok::<ContainerSpecView, ParseError>(c),
{
    lemma_parse_ports_of_raw(c.ports);
    assert(or_empty(raw_of_container(c).ports) == raw_of_ports(c.ports));
    assert(ContainerSpecView { name: c.name, image: c.image, ports: c.ports } =~= c);
}

/// A canonical container list parses back to itself.
proof fn lemma_parse_containers_of_raw(cs: Seq<ContainerSpecView>)
    ensures
        parse_containers(raw_of_containers(cs)) == Ok::<Seq<ContainerSpecView>, ParseError>(cs),
    decreases cs.len(),
{
    if cs.len() == 0 {
        assert(raw_of_containers(cs).len() == 0);
        assert(cs =~= Seq::<ContainerSpecView>::empty());
    } else {
        lemma_parse_containers_of_raw(cs.drop_last());
        lemma_parse_container_of_raw(cs.last());
        assert(raw_of_containers(cs).drop_last() =~= raw_of_containers(cs.drop_last()));
        assert(raw_of_containers(cs).last() == raw_of_container(cs.last()));
        assert(cs.drop_last().push(cs.last()) =~= cs);
    }
}

/// Parsing is a left inverse of the canonical serialization: the raw
/// document produced from any task parses back to exactly that task.
pub proof fn lemma_parse_left_inverse(t: PodTaskView)
    ensures
        parse_task(raw_of_task(t)) == Ok::<PodTaskView, ParseError>(t),
{
    lemma_parse_containers_of_raw(t.spec.containers);
    lemma_parse_containers_of_raw(t.spec.init_containers);
    assert(parse_meta(raw_of_meta(t.metadata)) == Ok::<ObjectMetaView, ParseError>(
        ObjectMetaView {
            name: t.metadata.name,
            namespace: t.metadata.namespace,
            labels: t.metadata.labels,
            annotations: t.metadata.annotations,
        },
    ));
    assert(ObjectMetaView {
        name: t.metadata.name,
        namespace: t.metadata.namespace,
        labels: t.metadata.labels,
        annotations: t.metadata.annotations,
    } =~= t.metadata);
    assert(PodSpecView { containers: t.spec.containers, init_containers: t.spec.init_containers }
        =~= t.spec);
    assert(PodTaskView {
        api_version: t.api_version,
        kind: t.kind,
        metadata: t.metadata,
        spec: t.spec,
    } =~= t);
}

/// Every parse failure of a port list is the missing-field error.
proof fn lemma_parse_ports_err_value(rs: Seq<Option<i32>>)
    ensures
        parse_ports(rs) is Err ==> parse_ports(rs) == Err::<Seq<i32>, ParseError>(
            ParseError::MissingField,
        ),
    decreases rs.len(),
{
    if rs.len() > 0 {
        lemma_parse_ports_err_value(rs.drop_last());
    }
}

/// A port list with an absent port fails to parse.
proof fn lemma_parse_ports_err(rs: Seq<Option<i32>>, i: int)
    requires
        0 <= i < rs.len(),
        rs[i] is None,
    ensures
        parse_ports(rs) == Err::<Seq<i32>, ParseError>(ParseError::MissingField),
    decreases rs.len(),
{
    if i == rs.len() - 1 {
        lemma_parse_ports_err_value(rs.drop_last());
    } else {
        assert(rs.drop_last()[i] == rs[i]);
        lemma_parse_ports_err(rs.drop_last(), i);
    }
}

/// Every parse failure of one container spec is the missing-field error.
proof fn lemma_parse_container_err_value(c: RawContainerSpecView)
    ensures
        parse_container(c) is Err ==> parse_container(c) == Err::<ContainerSpecView, ParseError>(
            ParseError::MissingField,
        ),
{
    lemma_parse_ports_err_value(or_empty(c.ports));
}

/// Every parse failure of a container list is the missing-field error.
proof fn lemma_parse_containers_err_value(rs: Seq<RawContainerSpecView>)
    ensures
        parse_containers(rs) is Err ==> parse_containers(rs) == Err::<
            Seq<ContainerSpecView>,
            ParseError,
        >(ParseError::MissingField),
    decreases rs.len(),
{
    if rs.len() > 0 {
        lemma_parse_containers_err_value(rs.drop_last());
        lemma_parse_container_err_value(rs.last());
    }
}

/// A container list whose element at `i` fails to parse fails as a
/// whole.
proof fn lemma_parse_containers_err(rs: Seq<RawContainerSpecView>, i: int)
    requires
        0 <= i < rs.len(),
        parse_container(rs[i]) is Err,
    ensures
        parse_containers(rs) == Err::<Seq<ContainerSpecView>, ParseError>(
            ParseError::MissingField,
        ),
    decreases rs.len(),
{
    if i == rs.len() - 1 {
        lemma_parse_containers_err_value(rs);
    } else {
        assert(rs.drop_last()[i] == rs[i]);
        lemma_parse_containers_err(rs.drop_last(), i);
    }
}

/// Copies a key/value pair list verbatim.
pub(crate) fn clone_pairs(v: &Vec<(String, String)>) -> (r: Vec<(String, String)>)
    ensures
        r.deep_view() == v.deep_view(),
{
    let mut r: Vec<(String, String)> = Vec::new();
    let mut i: usize = 0;
    while i < v.len()
        invariant
            i <= v.len(),
            r.deep_view() =~= v.deep_view().take(i as int),
        decreases v.len() - i,
    {
        let key = v[i].0.clone();
        let value = v[i].1.clone();
        r.push((key, value));
        proof {
            assert(v.deep_view()[i as int] == (v@[i as int].0@, v@[i as int].1@));
            assert(v.deep_view().take(i + 1) =~= v.deep_view().take(i as int).push(
                v.deep_view()[i as int],
            ));
            assert(r.deep_view() =~= v.deep_view().take(i + 1));
        }
        i += 1;
    }
    proof {
        assert(r.deep_view() =~= v.deep_view());
    }
    r
}

/// Takes an optional list of the document, defaulting an absent one to
/// empty.
fn or_empty_vec<T: DeepView>(o: Option<Vec<T>>) -> (r: Vec<T>)
    ensures
        r.deep_view() == or_empty(o.deep_view()),
{
    match o {
        Some(v) => v,
        None => Vec::new(),
    }
}

/// Converts a raw port list, failing on any entry without a port.
fn convert_ports(raw: &Vec<RawPort>) -> (r: Result<Vec<Port>, ParseError>)
    ensures
        r matches Ok(ps) ==> parse_ports(raw.deep_view()) == Ok::<Seq<i32>, ParseError>(
            ps.deep_view(),
        ),
        r matches Err(e) ==> parse_ports(raw.deep_view()) == Err::<Seq<i32>, ParseError>(e),
{
    let mut out: Vec<Port> = Vec::new();
    proof {
        assert(raw.deep_view().take(0) =~= Seq::<Option<i32>>::empty());
        assert(out.deep_view() =~= Seq::<i32>::empty());
    }
    let mut i: usize = 0;
    while i < raw.len()
        invariant
            i <= raw.len(),
            parse_ports(raw.deep_view().take(i as int)) == Ok::<Seq<i32>, ParseError>(
                out.deep_view(),
            ),
        decreases raw.len() - i,
    {
        match raw[i].container_port {
            Some(p) => {
                let ghost prev = out.deep_view();
                out.push(Port { container_port: p });
                proof {
                    assert(out.deep_view() =~= prev.push(p));
                    assert(raw.deep_view().take(i + 1).drop_last() =~= raw.deep_view().take(
                        i as int,
                    ));
                    assert(raw.deep_view().take(i + 1).last() == Some(p));
                }
            },
            None => {
                proof {
                    assert(raw.deep_view()[i as int] is None);
                    lemma_parse_ports_err(raw.deep_view(), i as int);
                }
                return Err(ParseError::MissingField);
            },
        }
        i += 1;
    }
    proof {
        assert(raw.deep_view().take(raw.len() as int) =~= raw.deep_view());
    }
    Ok(out)
}

/// Converts a container's optional port list, defaulting an absent one
/// to empty.
fn convert_opt_ports(o: &Option<Vec<RawPort>>) -> (r: Result<Vec<Port>, ParseError>)
    ensures
        r matches Ok(ps) ==> parse_ports(or_empty(o.deep_view())) == Ok::<Seq<i32>, ParseError>(
            ps.deep_view(),
        ),
        r matches Err(e) ==> parse_ports(or_empty(o.deep_view())) == Err::<Seq<i32>, ParseError>(
            e,
        ),
{
    match o {
        Some(pv) => convert_ports(pv),
        None => {
            let empty_out: Vec<Port> = Vec::new();
            proof {
                assert(or_empty(o.deep_view()) =~= Seq::<Option<i32>>::empty());
                assert(empty_out.deep_view() =~= Seq::<i32>::empty());
            }
            Ok(empty_out)
        },
    }
}

/// Converts a raw container list, failing on any container without a
/// name or image.
fn convert_containers(raw: &Vec<RawContainerSpec>) -> (r: Result<Vec<ContainerSpec>, ParseError>)
    ensures
        r matches Ok(cs) ==> parse_containers(raw.deep_view()) == Ok::<
            Seq<ContainerSpecView>,
            ParseError,
        >(cs.deep_view()),
        r matches Err(e) ==> parse_containers(raw.deep_view()) == Err::<
            Seq<ContainerSpecView>,
            ParseError,
        >(e),
{
    let mut out: Vec<ContainerSpec> = Vec::new();
    proof {
        assert(raw.deep_view().take(0) =~= Seq::<RawContainerSpecView>::empty());
        assert(out.deep_view() =~= Seq::<ContainerSpecView>::empty());
    }
    let mut i: usize = 0;
    while i < raw.len()
        invariant
            i <= raw.len(),
            parse_containers(raw.deep_view().take(i as int)) == Ok::<
                Seq<ContainerSpecView>,
                ParseError,
            >(out.deep_view()),
        decreases raw.len() - i,
    {
        let rc = &raw[i];
        let name = match &rc.name {
            Some(n) => n.clone(),
            None => {
                proof {
                    assert(parse_container(raw.deep_view()[i as int]) is Err);
                    lemma_parse_containers_err(raw.deep_view(), i as int);
                }
                return Err(ParseError::MissingField);
            },
        };
        let image = match &rc.image {
            Some(im) => im.clone(),
            None => {
                proof {
                    assert(parse_container(raw.deep_view()[i as int]) is Err);
                    lemma_parse_containers_err(raw.deep_view(), i as int);
                }
                return Err(ParseError::MissingField);
            },
        };
        let ports = match convert_opt_ports(&rc.ports) {
            Ok(ps) => ps,
            Err(e) => {
                proof {
                    assert(parse_container(raw.deep_view()[i as int]) is Err);
                    lemma_parse_ports_err_value(or_empty(raw.deep_view()[i as int].ports));
                    lemma_parse_containers_err(raw.deep_view(), i as int);
                }
                return Err(e);
            },
        };
        let c = ContainerSpec { name, image, ports };
        proof {
            assert(parse_container(raw.deep_view()[i as int]) is Ok);
            assert(c.deep_view() =~= parse_container(raw.deep_view()[i as int])->Ok_0);
            assert(parse_container(raw.deep_view()[i as int]) == Ok::<
                ContainerSpecView,
                ParseError,
            >(c.deep_view()));
        }
        let ghost prev = out.deep_view();
        out.push(c);
        proof {
            assert(out.deep_view() =~= prev.push(parse_container(
                raw.deep_view()[i as int],
            )->Ok_0));
            assert(raw.deep_view().take(i + 1).drop_last() =~= raw.deep_view().take(i as int));
            assert(raw.deep_view().take(i + 1).last() == raw.deep_view()[i as int]);
        }
        i += 1;
    }
    proof {
        assert(raw.deep_view().take(raw.len() as int) =~= raw.deep_view());
    }
    Ok(out)
}

impl PodTask {
    /// Applies the manifest schema to a raw document: the four top-level
    /// fields, the metadata's name and namespace and every container's
    /// name and image are required; labels, annotations, ports and both
    /// container lists default to empty.  Any absence is the
    /// missing-field error, with no partial result.
    pub fn from_raw(raw: RawPodTask) -> (r: Result<PodTask, ParseError>)
        ensures
            r matches Ok(t) ==> parse_task(raw.deep_view()) == Ok::<PodTaskView, ParseError>(
                t.deep_view(),
            ),
            r matches Err(e) ==> parse_task(raw.deep_view()) == Err::<PodTaskView, ParseError>(e),
    {
        let ghost raw0 = raw.deep_view();
        let api_version = match raw.api_version {
            Some(s) => s,
            None => {
                return Err(ParseError::MissingField);
            },
        };
        let kind = match raw.kind {
            Some(s) => s,
            None => {
                return Err(ParseError::MissingField);
            },
        };
        let rmeta = match raw.metadata {
            Some(m) => m,
            None => {
                return Err(ParseError::MissingField);
            },
        };
        let rspec = match raw.spec {
            Some(s) => s,
            None => {
                return Err(ParseError::MissingField);
            },
        };
        let ghost rmeta0 = rmeta.deep_view();
        let ghost rspec0 = rspec.deep_view();
        let name = match rmeta.name {
            Some(s) => s,
            None => {
                proof {
                    assert(parse_meta(rmeta0) is Err);
                }
                return Err(ParseError::MissingField);
            },
        };
        let namespace = match rmeta.namespace {
            Some(s) => s,
            None => {
                proof {
                    assert(parse_meta(rmeta0) is Err);
                }
                return Err(ParseError::MissingField);
            },
        };
        let labels = or_empty_vec(rmeta.labels);
        let annotations = or_empty_vec(rmeta.annotations);
        let raw_containers = or_empty_vec(rspec.containers);
        let raw_inits = or_empty_vec(rspec.init_containers);
        let containers = match convert_containers(&raw_containers) {
            Ok(cs) => cs,
            Err(e) => {
                proof {
                    assert(parse_pod_spec(rspec0) == Err::<PodSpecView, ParseError>(e));
                }
                return Err(e);
            },
        };
        let init_containers = match convert_containers(&raw_inits) {
            Ok(cs) => cs,
            Err(e) => {
                proof {
                    assert(parse_pod_spec(rspec0) == Err::<PodSpecView, ParseError>(e));
                }
                return Err(e);
            },
        };
        let t = PodTask {
            api_version,
            kind,
            metadata: ObjectMeta { name, namespace, labels, annotations },
            spec: PodSpec { containers, init_containers },
        };
        proof {
            assert(parse_meta(rmeta0) == Ok::<ObjectMetaView, ParseError>(t.metadata.deep_view()));
            assert(parse_pod_spec(rspec0) == Ok::<PodSpecView, ParseError>(t.spec.deep_view()));
            assert(parse_task(raw0) == Ok::<PodTaskView, ParseError>(t.deep_view()));
        }
        Ok(t)
    }

    /// Writes the task down as a raw document with every field present,
    /// the canonical form.  Parsing that document recovers an equal
    /// task.
    pub fn to_raw(&self) -> (r: RawPodTask)
        ensures
            r.deep_view() == raw_of_task(self.deep_view()),
            parse_task(r.deep_view()) == Ok::<PodTaskView, ParseError>(self.deep_view()),
    {
        let r = RawPodTask {
            api_version: Some(self.api_version.clone()),
            kind: Some(self.kind.clone()),
            metadata: Some(
                RawObjectMeta {
                    name: Some(self.metadata.name.clone()),
                    namespace: Some(self.metadata.namespace.clone()),
                    labels: Some(clone_pairs(&self.metadata.labels)),
                    annotations: Some(clone_pairs(&self.metadata.annotations)),
                },
            ),
            spec: Some(
                RawPodSpec {
                    containers: Some(containers_to_raw(&self.spec.containers)),
                    init_containers: Some(containers_to_raw(&self.spec.init_containers)),
                },
            ),
        };
        proof {
            assert(r.deep_view() =~= raw_of_task(self.deep_view()));
            lemma_parse_left_inverse(self.deep_view());
        }
        r
    }
}

/// Serializes a port list into its canonical raw form.
fn ports_to_raw(ps: &Vec<Port>) -> (r: Vec<RawPort>)
    ensures
        r.deep_view() == raw_of_ports(ps.deep_view()),
{
    let mut r: Vec<RawPort> = Vec::new();
    let mut i: usize = 0;
    while i < ps.len()
        invariant
            i <= ps.len(),
            r.deep_view() =~= raw_of_ports(ps.deep_view().take(i as int)),
        decreases ps.len() - i,
    {
        let ghost prev = r.deep_view();
        r.push(RawPort { container_port: Some(ps[i].container_port) });
        proof {
            assert(r.deep_view() =~= prev.push(Some(ps.deep_view()[i as int])));
            assert(raw_of_ports(ps.deep_view().take(i + 1)) =~= prev.push(
                Some(ps.deep_view()[i as int]),
            ));
        }
        i += 1;
    }
    proof {
        assert(ps.deep_view().take(ps.len() as int) =~= ps.deep_view());
    }
    r
}

/// Serializes a container list into its canonical raw form.
fn containers_to_raw(cs: &Vec<ContainerSpec>) -> (r: Vec<RawContainerSpec>)
    ensures
        r.deep_view() == raw_of_containers(cs.deep_view()),
{
    let mut r: Vec<RawContainerSpec> = Vec::new();
    let mut i: usize = 0;
    while i < cs.len()
        invariant
            i <= cs.len(),
            r.deep_view() =~= raw_of_containers(cs.deep_view().take(i as int)),
        decreases cs.len() - i,
    {
        let c = &cs[i];
        let rc = RawContainerSpec {
            name: Some(c.name.clone()),
            image: Some(c.image.clone()),
            ports: Some(ports_to_raw(&c.ports)),
        };
        proof {
            assert(rc.deep_view() =~= raw_of_container(cs.deep_view()[i as int]));
        }
        let ghost prev = r.deep_view();
        r.push(rc);
        proof {
            assert(r.deep_view() =~= prev.push(raw_of_container(cs.deep_view()[i as int])));
            assert(raw_of_containers(cs.deep_view().take(i + 1)) =~= prev.push(
                raw_of_container(cs.deep_view()[i as int]),
            ));
        }
        i += 1;
    }
    proof {
        assert(cs.deep_view().take(cs.len() as int) =~= cs.deep_view());
    }
    r
}

} // verus!

